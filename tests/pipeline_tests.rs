use imgcache::config::AvifConfig;
use imgcache::pipeline::{
    choose_encoding, content_type, decode, encode_raster, resize_to_raster, target_size, transform,
    Encoding, Raster, TransformError,
};

fn png(width: u32, height: u32) -> Vec<u8> {
    let img = image::RgbaImage::from_fn(width, height, |x, y| {
        image::Rgba([(x % 256) as u8, (y % 256) as u8, 128, 255])
    });
    let mut out = std::io::Cursor::new(Vec::new());
    img.write_to(&mut out, image::ImageFormat::Png).unwrap();
    out.into_inner()
}

fn avif_cfg() -> AvifConfig {
    AvifConfig { quality: 70, speed: 10, thread: Some(1) }
}

fn dims(bytes: &[u8]) -> (u32, u32) {
    let img = image::load_from_memory(bytes).unwrap();
    (img.width(), img.height())
}

fn is_webp(bytes: &[u8]) -> bool {
    bytes.len() > 12 && &bytes[0..4] == b"RIFF" && &bytes[8..12] == b"WEBP"
}

fn is_avif(bytes: &[u8]) -> bool {
    bytes.len() > 12 && &bytes[4..8] == b"ftyp" && &bytes[8..12] == b"avif"
}

#[test]
fn resize_keeps_missing_dimension_from_source() {
    let art = transform(&png(200, 50), 100, 0, "webp", "avif", &avif_cfg()).ok().unwrap();
    assert_eq!((art.source_width, art.source_height), (200, 50));
    assert_eq!((art.width, art.height), (100, 50));
    assert!(is_webp(&art.bytes));
    assert_eq!(dims(&art.bytes), (100, 50));
}

#[test]
fn no_resize_when_both_dimensions_are_zero() {
    let art = transform(&png(30, 20), 0, 0, "webp", "webp", &avif_cfg()).ok().unwrap();
    assert_eq!((art.width, art.height), (30, 20));
    assert_eq!(dims(&art.bytes), (30, 20));
}

#[test]
fn unknown_format_falls_back_to_webp_default() {
    let art = transform(&png(16, 16), 8, 8, "xyz", "webp", &avif_cfg()).ok().unwrap();
    assert_eq!(art.encoding, Encoding::WebpLossless);
    assert!(!art.default_unusable);
    assert!(is_webp(&art.bytes));
}

#[test]
fn unknown_format_and_bad_default_fall_back_to_avif_with_warning() {
    let art = transform(&png(16, 16), 0, 0, "xyz", "gif", &avif_cfg()).ok().unwrap();
    assert_eq!(art.encoding, Encoding::Avif);
    assert!(art.default_unusable);
    assert!(is_avif(&art.bytes));
}

#[test]
fn avif_request_encodes_avif() {
    let art = transform(&png(16, 8), 0, 4, "avif", "webp", &avif_cfg()).ok().unwrap();
    assert_eq!(art.encoding, Encoding::Avif);
    assert_eq!((art.width, art.height), (16, 4));
    assert!(is_avif(&art.bytes));
}

#[test]
fn garbage_bytes_fail_to_decode() {
    let r = transform(b"not an image", 0, 0, "webp", "avif", &avif_cfg());
    assert!(matches!(r, Err(TransformError::Decode)));
    assert!(decode(&[]).is_err());
}

#[test]
fn bad_avif_settings_are_an_encode_error() {
    let bad = AvifConfig { quality: 0, speed: 5, thread: None };
    let r = transform(&png(4, 4), 0, 0, "avif", "avif", &bad);
    assert!(matches!(r, Err(TransformError::Encode)));
    let no_threads = AvifConfig { quality: 50, speed: 5, thread: Some(0) };
    assert!(matches!(transform(&png(4, 4), 0, 0, "avif", "avif", &no_threads), Err(TransformError::Encode)));
    let slow = AvifConfig { quality: 50, speed: 11, thread: None };
    assert!(matches!(transform(&png(4, 4), 0, 0, "avif", "avif", &slow), Err(TransformError::Encode)));
}

#[test]
fn malformed_raster_is_an_encode_error() {
    let raster = Raster { width: 2, height: 2, rgba: vec![0; 15] };
    assert!(matches!(encode_raster(&raster, Encoding::WebpLossless, &avif_cfg()), Err(TransformError::Encode)));
    let empty = Raster { width: 0, height: 3, rgba: vec![] };
    assert!(matches!(encode_raster(&empty, Encoding::Avif, &avif_cfg()), Err(TransformError::Encode)));
}

#[test]
fn webp_encoding_matches_the_encoder() {
    let raster = Raster { width: 2, height: 1, rgba: vec![255, 0, 0, 255, 0, 0, 255, 128] };
    let bytes = encode_raster(&raster, Encoding::WebpLossless, &avif_cfg()).ok().unwrap();
    let mut expected = Vec::new();
    image::codecs::webp::WebPEncoder::new_lossless(&mut expected)
        .encode(&raster.rgba, 2, 1, image::ExtendedColorType::Rgba8)
        .unwrap();
    assert_eq!(bytes, expected);
    let back = image::load_from_memory(&bytes).unwrap().to_rgba8();
    assert_eq!(back.into_raw(), raster.rgba);
}

#[test]
fn resize_to_raster_gives_rgba_pixels() {
    let img = decode(&png(10, 6)).ok().unwrap();
    assert_eq!((img.width(), img.height()), (10, 6));
    let r = resize_to_raster(&img, 0, 3).ok().unwrap();
    assert_eq!((r.width, r.height), (10, 3));
    assert_eq!(r.rgba.len(), 4 * 10 * 3);
    let same = resize_to_raster(&img, 0, 0).ok().unwrap();
    assert_eq!((same.width, same.height), (10, 6));
    assert_eq!(&same.rgba[0..4], &[0, 0, 128, 255]);
}

#[test]
fn choose_encoding_table() {
    let c = choose_encoding("webp", "avif");
    assert_eq!((c.encoding, c.default_unusable), (Encoding::WebpLossless, false));
    let c = choose_encoding("avif", "webp");
    assert_eq!((c.encoding, c.default_unusable), (Encoding::Avif, false));
    let c = choose_encoding("", "webp");
    assert_eq!((c.encoding, c.default_unusable), (Encoding::WebpLossless, false));
    let c = choose_encoding("png", "avif");
    assert_eq!((c.encoding, c.default_unusable), (Encoding::Avif, false));
    let c = choose_encoding("WEBP", "");
    assert_eq!((c.encoding, c.default_unusable), (Encoding::Avif, true));
}

#[test]
fn content_type_table() {
    assert_eq!(content_type("avif"), "image/avif");
    assert_eq!(content_type("webp"), "image/webp");
    assert_eq!(content_type("xyz"), "application/octet-stream");
    assert_eq!(content_type(""), "application/octet-stream");
}

#[test]
fn target_size_table() {
    assert_eq!(target_size(0, 0, 200, 50), None);
    assert_eq!(target_size(100, 0, 200, 50), Some((100, 50)));
    assert_eq!(target_size(0, 10, 200, 50), Some((200, 10)));
    assert_eq!(target_size(7, 9, 200, 50), Some((7, 9)));
}

#[test]
fn unaddressable_target_size_is_refused() {
    let img = decode(&png(2, 2)).ok().unwrap();
    assert!(matches!(resize_to_raster(&img, u32::MAX, u32::MAX), Err(TransformError::Encode)));
    let r = transform(&png(2, 2), u32::MAX, u32::MAX, "webp", "webp", &avif_cfg());
    assert!(matches!(r, Err(TransformError::Encode)));
}

#[test]
fn webp_refuses_sizes_beyond_its_limit() {
    let wide = Raster { width: 16385, height: 1, rgba: vec![0; 4 * 16385] };
    assert!(matches!(encode_raster(&wide, Encoding::WebpLossless, &avif_cfg()), Err(TransformError::Encode)));
    let widest = Raster { width: 16384, height: 1, rgba: vec![0; 4 * 16384] };
    assert!(encode_raster(&widest, Encoding::WebpLossless, &avif_cfg()).is_ok());
    let r = transform(&png(4, 4), 16385, 0, "webp", "webp", &avif_cfg());
    assert!(matches!(r, Err(TransformError::Encode)));
}

#[test]
fn decode_reports_the_source_size() {
    let img = decode(&png(7, 3)).ok().unwrap();
    assert_eq!((img.width(), img.height()), (7, 3));
    assert!(matches!(decode(b"\x89PNG broken"), Err(TransformError::Decode)));
}
