use vstd::prelude::*;
use crate::config::AvifConfig;

verus! {

/// image's decoded image, carried through opaquely.
#[verifier::external_type_specification]
#[verifier::external_body]
pub struct ExDynamicImage(image::DynamicImage);

/// image's decoding and encoding error.
#[verifier::external_type_specification]
#[verifier::external_body]
pub struct ExImageError(image::ImageError);

/// ravif's encoding error.
#[verifier::external_type_specification]
#[verifier::external_body]
pub struct ExAvifError(ravif::Error);

/// The encoder that produces an artifact.
#[derive(Debug, Clone, Copy, PartialEq, Eq, Structural)]
pub enum Encoding {
    /// Lossless WebP of the RGBA pixels.
    WebpLossless,
    /// Lossy AVIF of the RGBA pixels, with the configured quality, speed and threads.
    Avif,
}

/// Why a transform produced no artifact.
#[derive(Debug, Clone, Copy, PartialEq, Eq, Structural)]
pub enum TransformError {
    /// The bytes could not be identified or decoded as an image.
    Decode,
    /// The encoder rejected the pixels or the settings.
    Encode,
}

/// The encoder picked for a request, and whether the configured default
/// format was unusable, which deserves a warning.
#[derive(Debug, Clone, Copy, PartialEq, Eq, Structural)]
pub struct EncodingChoice {
    pub encoding: Encoding,
    pub default_unusable: bool,
}

/// A decoded image with its dimensions.
pub struct DecodedImage {
    image: image::DynamicImage,
    width: u32,
    height: u32,
}

/// 8-bit RGBA pixels, row by row.
pub struct Raster {
    pub width: u32,
    pub height: u32,
    pub rgba: Vec<u8>,
}

/// The product of a transform.
pub struct Artifact {
    /// The encoded image.
    pub bytes: Vec<u8>,
    /// The encoder that produced it.
    pub encoding: Encoding,
    /// Whether the configured default format was unusable.
    pub default_unusable: bool,
    /// Dimensions of the decoded original.
    pub source_width: u32,
    pub source_height: u32,
    /// Dimensions of the encoded image.
    pub width: u32,
    pub height: u32,
}

impl DecodedImage {
    /// Width in pixels.
    pub closed spec fn spec_width(&self) -> u32 {
        self.width
    }

    /// Height in pixels.
    pub closed spec fn spec_height(&self) -> u32 {
        self.height
    }

    /// Width of the image in pixels.
    pub fn width(&self) -> (r: u32)
        ensures
            r == self.spec_width(),
    {
        self.width
    }

    /// Height of the image in pixels.
    pub fn height(&self) -> (r: u32)
        ensures
            r == self.spec_height(),
    {
        self.height
    }
}

impl Raster {
    /// Four bytes for each pixel.
    pub open spec fn wf(&self) -> bool {
        self.rgba@.len() == 4 * self.width * self.height
    }
}

/// The format name "webp".
pub open spec fn webp_text() -> Seq<char> {
    seq!['w', 'e', 'b', 'p']
}

/// The format name "avif".
pub open spec fn avif_text() -> Seq<char> {
    seq!['a', 'v', 'i', 'f']
}

/// A format name that selects an encoder by itself.
pub open spec fn is_known_format(f: Seq<char>) -> bool {
    f == webp_text() || f == avif_text()
}

/// The encoder for a requested format: the one it names, else the one the
/// default names, else AVIF.
pub open spec fn encoding_for(format: Seq<char>, default_format: Seq<char>) -> Encoding {
    if format == webp_text() {
        Encoding::WebpLossless
    } else if format == avif_text() {
        Encoding::Avif
    } else if default_format == webp_text() {
        Encoding::WebpLossless
    } else {
        Encoding::Avif
    }
}

/// The default is consulted and names no encoder.
pub open spec fn default_unusable_for(format: Seq<char>, default_format: Seq<char>) -> bool {
    !is_known_format(format) && !is_known_format(default_format)
}

/// The dimensions of the output: each requested dimension that is not zero,
/// else the source's own.
pub open spec fn output_size(width: u32, height: u32, source_width: u32, source_height: u32) -> (
    u32,
    u32,
) {
    (
        if width > 0 {
            width
        } else {
            source_width
        },
        if height > 0 {
            height
        } else {
            source_height
        },
    )
}

/// AVIF settings that the encoder takes without panicking.
pub open spec fn avif_settings_ok(cfg: AvifConfig) -> bool {
    1 <= cfg.quality <= 100 && 1 <= cfg.speed <= 10 && cfg.thread != Some(0usize)
}

/// The content type that answers a request for `format`.
pub open spec fn content_type_of(format: Seq<char>) -> Seq<char> {
    if format == avif_text() {
        "image/avif"@
    } else if format == webp_text() {
        "image/webp"@
    } else {
        "application/octet-stream"@
    }
}

/// The width and height of the image that some bytes decode to, or `None`
/// when they cannot be identified or decoded as an image.
pub uninterp spec fn decoded_size_of(bytes: Seq<u8>) -> Option<(u32, u32)>;

/// Dimensions that a lossless WebP file can hold.
pub open spec fn webp_size_ok(width: u32, height: u32) -> bool {
    1 <= width <= 16384 && 1 <= height <= 16384
}

/// A lossless WebP file of the given RGBA pixels.
pub uninterp spec fn webp_lossless_of(width: u32, height: u32, rgba: Seq<u8>) -> Seq<u8>;

/// Whether `s` is the text `lit`.
fn text_eq(s: &str, lit: &str) -> (r: bool)
    ensures
        r == (s@ == lit@),
{
    s.to_owned() == lit.to_owned()
}

/// Picks the encoder for `format`, falling back to `default_format` and then to AVIF.
pub fn choose_encoding(format: &str, default_format: &str) -> (r: EncodingChoice)
    ensures
        r.encoding == encoding_for(format@, default_format@),
        r.default_unusable == default_unusable_for(format@, default_format@),
{
    proof {
        reveal_strlit("webp");
        reveal_strlit("avif");
        assert("webp"@ =~= webp_text());
        assert("avif"@ =~= avif_text());
    }
    if text_eq(format, "webp") {
        EncodingChoice { encoding: Encoding::WebpLossless, default_unusable: false }
    } else if text_eq(format, "avif") {
        EncodingChoice { encoding: Encoding::Avif, default_unusable: false }
    } else if text_eq(default_format, "webp") {
        EncodingChoice { encoding: Encoding::WebpLossless, default_unusable: false }
    } else if text_eq(default_format, "avif") {
        EncodingChoice { encoding: Encoding::Avif, default_unusable: false }
    } else {
        EncodingChoice { encoding: Encoding::Avif, default_unusable: true }
    }
}

/// The content type of the response for `format`.
pub fn content_type(format: &str) -> (r: &'static str)
    ensures
        r@ == content_type_of(format@),
{
    proof {
        reveal_strlit("webp");
        reveal_strlit("avif");
        assert("webp"@ =~= webp_text());
        assert("avif"@ =~= avif_text());
    }
    if text_eq(format, "avif") {
        "image/avif"
    } else if text_eq(format, "webp") {
        "image/webp"
    } else {
        "application/octet-stream"
    }
}

/// The size to resize to, or `None` when both requested dimensions are zero
/// and the image passes through at its own size.
pub fn target_size(width: u32, height: u32, source_width: u32, source_height: u32) -> (r: Option<
    (u32, u32),
>)
    ensures
        r == (if width == 0 && height == 0 {
            None
        } else {
            Some(output_size(width, height, source_width, source_height))
        }),
{
    if width == 0 && height == 0 {
        None
    } else {
        let w = if width > 0 {
            width
        } else {
            source_width
        };
        let h = if height > 0 {
            height
        } else {
            source_height
        };
        Some((w, h))
    }
}

/// Whether the encoder takes `cfg` without panicking.
pub fn avif_settings_valid(cfg: &AvifConfig) -> (r: bool)
    ensures
        r == avif_settings_ok(*cfg),
{
    let threads_ok = match cfg.thread {
        Some(n) => n > 0,
        None => true,
    };
    1 <= cfg.quality && cfg.quality <= 100 && 1 <= cfg.speed && cfg.speed <= 10 && threads_ok
}

/// Relies on image::load_from_memory: decodes `bytes`, guessing the
/// container format from their content.
#[verifier::external_body]
fn load_image(bytes: &[u8]) -> (r: Result<DecodedImage, image::ImageError>)
    ensures
        r is Ok <==> decoded_size_of(bytes@) is Some,
        r matches Ok(img) ==> decoded_size_of(bytes@) == Some((img.spec_width(), img.spec_height())),
{
    match image::load_from_memory(bytes) {
        Ok(img) => Ok(DecodedImage { width: img.width(), height: img.height(), image: img }),
        Err(e) => Err(e),
    }
}

/// Relies on DynamicImage::resize_exact with the Catmull-Rom filter: a new
/// image of exactly `width`×`height` pixels.
#[verifier::external_body]
fn resize_exact(img: &DecodedImage, width: u32, height: u32) -> (r: DecodedImage)
    requires
        4 * width * height <= usize::MAX,
    ensures
        r.spec_width() == width,
        r.spec_height() == height,
{
    let out = img.image.resize_exact(width, height, image::imageops::FilterType::CatmullRom);
    DecodedImage { width: out.width(), height: out.height(), image: out }
}

/// Relies on DynamicImage::to_rgba8 and ImageBuffer::into_raw: the pixels as
/// 8-bit RGBA, at the image's own size.
#[verifier::external_body]
fn rgba_pixels(img: &DecodedImage) -> (r: Raster)
    requires
        4 * img.spec_width() * img.spec_height() <= usize::MAX,
    ensures
        r.width == img.spec_width(),
        r.height == img.spec_height(),
        r.wf(),
{
    let buf = img.image.to_rgba8();
    Raster { width: buf.width(), height: buf.height(), rgba: buf.into_raw() }
}

/// Relies on image's WebPEncoder::new_lossless and its encode: a lossless
/// WebP file of the RGBA pixels.
#[verifier::external_body]
fn webp_lossless(raster: &Raster) -> (r: Result<Vec<u8>, image::ImageError>)
    requires
        raster.wf(),
    ensures
        r is Ok <==> webp_size_ok(raster.width, raster.height),
        r matches Ok(b) ==> b@ == webp_lossless_of(raster.width, raster.height, raster.rgba@),
{
    let mut out: Vec<u8> = Vec::new();
    let encoder = image::codecs::webp::WebPEncoder::new_lossless(&mut out);
    match encoder.encode(&raster.rgba, raster.width, raster.height, image::ExtendedColorType::Rgba8) {
        Ok(()) => Ok(out),
        Err(e) => Err(e),
    }
}

/// Relies on ravif's Encoder::encode_rgba with the given quality, speed and
/// thread count: an AVIF file of the RGBA pixels.
#[verifier::external_body]
fn avif_lossy(raster: &Raster, cfg: &AvifConfig) -> (r: Result<Vec<u8>, ravif::Error>)
    requires
        raster.wf(),
        raster.width > 0,
        raster.height > 0,
        avif_settings_ok(*cfg),
{
    let pixels: &[ravif::RGBA8] = rgb::bytemuck::cast_slice(&raster.rgba);
    let img = ravif::Img::new(pixels, raster.width as usize, raster.height as usize);
    let encoder = ravif::Encoder::new().with_num_threads(cfg.thread).with_quality(
        cfg.quality.into(),
    ).with_speed(cfg.speed);
    match encoder.encode_rgba(img) {
        Ok(encoded) => Ok(encoded.avif_file),
        Err(e) => Err(e),
    }
}

/// Decodes an original image, guessing its container format from the bytes.
pub fn decode(original: &[u8]) -> (r: Result<DecodedImage, TransformError>)
    ensures
        r is Ok <==> decoded_size_of(original@) is Some,
        r matches Ok(img) ==> decoded_size_of(original@) == Some(
            (img.spec_width(), img.spec_height()),
        ),
        r is Err ==> r == Err::<DecodedImage, TransformError>(TransformError::Decode),
{
    match load_image(original) {
        Ok(img) => Ok(img),
        Err(_) => Err(TransformError::Decode),
    }
}

/// Whether an RGBA buffer of `width`×`height` pixels can be addressed.
pub open spec fn fits_in_memory(width: u32, height: u32) -> bool {
    4 * width * height <= usize::MAX
}

/// Resizes `img` to the requested size (a zero dimension keeps the source's
/// own) and hands back its RGBA pixels; with both dimensions zero the image
/// passes through at its own size. A size whose pixel buffer cannot be
/// addressed is refused as an encode error.
pub fn resize_to_raster(img: &DecodedImage, width: u32, height: u32) -> (r: Result<
    Raster,
    TransformError,
>)
    ensures
        ({
            let (w, h) = output_size(width, height, img.spec_width(), img.spec_height());
            &&& r matches Ok(ras) ==> ras.width == w && ras.height == h && ras.wf()
            &&& r is Err <==> !fits_in_memory(w, h)
            &&& r is Err ==> r == Err::<Raster, TransformError>(TransformError::Encode)
        }),
{
    let src_w = img.width();
    let src_h = img.height();
    let w: u32 = if width > 0 {
        width
    } else {
        src_w
    };
    let h: u32 = if height > 0 {
        height
    } else {
        src_h
    };
    let wide = w as u128;
    let high = h as u128;
    proof {
        assert(4 * wide * high <= 4 * 0xffff_ffffu128 * 0xffff_ffffu128) by (nonlinear_arith)
            requires
                wide <= 0xffff_ffff,
                high <= 0xffff_ffff,
        ;
    }
    if 4 * wide * high > usize::MAX as u128 {
        return Err(TransformError::Encode);
    }
    match target_size(width, height, src_w, src_h) {
        Some((tw, th)) => {
            let resized = resize_exact(img, tw, th);
            Ok(rgba_pixels(&resized))
        },
        None => Ok(rgba_pixels(img)),
    }
}

/// Whether `raster` holds four bytes for each pixel.
pub fn raster_well_formed(raster: &Raster) -> (r: bool)
    ensures
        r == raster.wf(),
{
    let w = raster.width as u128;
    let h = raster.height as u128;
    proof {
        assert(4 * w * h <= 4 * 0xffff_ffffu128 * 0xffff_ffffu128) by (nonlinear_arith)
            requires
                w <= 0xffff_ffff,
                h <= 0xffff_ffff,
        ;
    }
    raster.rgba.len() as u128 == 4 * w * h
}

/// Encodes `raster` with `encoding`. Malformed pixels, unusable AVIF settings
/// and an empty image for AVIF are refused before the encoder is called.
pub fn encode_raster(raster: &Raster, encoding: Encoding, avif: &AvifConfig) -> (r: Result<
    Vec<u8>,
    TransformError,
>)
    ensures
        !raster.wf() ==> r == Err::<Vec<u8>, TransformError>(TransformError::Encode),
        encoding == Encoding::Avif && (!avif_settings_ok(*avif) || raster.width == 0
            || raster.height == 0) ==> r == Err::<Vec<u8>, TransformError>(
            TransformError::Encode,
        ),
        r is Err ==> r == Err::<Vec<u8>, TransformError>(TransformError::Encode),
        encoding == Encoding::WebpLossless ==> (r is Ok <==> raster.wf() && webp_size_ok(
            raster.width,
            raster.height,
        )),
        encoding == Encoding::WebpLossless && r is Ok ==> r->Ok_0@ == webp_lossless_of(
            raster.width,
            raster.height,
            raster.rgba@,
        ),
{
    if !raster_well_formed(raster) {
        return Err(TransformError::Encode);
    }
    match encoding {
        Encoding::WebpLossless => match webp_lossless(raster) {
            Ok(bytes) => Ok(bytes),
            Err(_) => Err(TransformError::Encode),
        },
        Encoding::Avif => {
            if !avif_settings_valid(avif) || raster.width == 0 || raster.height == 0 {
                return Err(TransformError::Encode);
            }
            match avif_lossy(raster, avif) {
                Ok(bytes) => Ok(bytes),
                Err(_) => Err(TransformError::Encode),
            }
        },
    }
}

/// Decodes `original`, resizes it as requested and encodes it in `format`,
/// falling back to `default_format` and then to AVIF.
pub fn transform(
    original: &[u8],
    width: u32,
    height: u32,
    format: &str,
    default_format: &str,
    avif: &AvifConfig,
) -> (r: Result<Artifact, TransformError>)
    ensures
        (r == Err::<Artifact, TransformError>(TransformError::Decode)) <==> decoded_size_of(
            original@,
        ) is None,
        r matches Ok(a) ==> decoded_size_of(original@) == Some((a.source_width, a.source_height)),
        webp_succeeds(original@, width, height, format@, default_format@) ==> r is Ok,
        r matches Ok(a) ==> {
            &&& a.encoding == encoding_for(format@, default_format@)
            &&& a.default_unusable == default_unusable_for(format@, default_format@)
            &&& (a.width, a.height) == output_size(
                width,
                height,
                a.source_width,
                a.source_height,
            )
            &&& a.encoding == Encoding::WebpLossless ==> exists|px: Seq<u8>|
                a.bytes@ == webp_lossless_of(a.width, a.height, px)
        },
        refuses_unusable_avif(r, format@, default_format@, *avif),
{
    let choice = choose_encoding(format, default_format);
    let img = match decode(original) {
        Ok(img) => img,
        Err(e) => return Err(e),
    };
    proof {
        if webp_succeeds(original@, width, height, format@, default_format@) {
            let (w, h) = output_size(width, height, img.spec_width(), img.spec_height());
            assert(4 * w * h <= 4 * 16384 * 16384) by (nonlinear_arith)
                requires
                    1 <= w <= 16384,
                    1 <= h <= 16384,
            ;
            assert(fits_in_memory(w, h));
        }
    }
    let raster = match resize_to_raster(&img, width, height) {
        Ok(r) => r,
        Err(e) => return Err(e),
    };
    let bytes = match encode_raster(&raster, choice.encoding, avif) {
        Ok(b) => b,
        Err(e) => return Err(e),
    };
    proof {
        if choice.encoding == Encoding::WebpLossless {
            assert(bytes@ == webp_lossless_of(raster.width, raster.height, raster.rgba@));
            assert(exists|px: Seq<u8>| bytes@ == webp_lossless_of(raster.width, raster.height, px));
        }
    }
    Ok(
        Artifact {
            bytes,
            encoding: choice.encoding,
            default_unusable: choice.default_unusable,
            source_width: img.width(),
            source_height: img.height(),
            width: raster.width,
            height: raster.height,
        },
    )
}

/// A request for a format that names no encoder is encoded as the default
/// names it: lossless WebP for "webp", else AVIF, and the warning is raised
/// exactly when the default names no encoder either.
pub proof fn law_format_fallback(format: Seq<char>, default_format: Seq<char>)
    requires
        !is_known_format(format),
    ensures
        default_format == webp_text() ==> encoding_for(format, default_format)
            == Encoding::WebpLossless && !default_unusable_for(format, default_format),
        default_format != webp_text() ==> encoding_for(format, default_format) == Encoding::Avif,
        default_unusable_for(format, default_format) <==> !is_known_format(default_format),
{
}

/// A requested dimension that is zero takes the source's own value, unscaled;
/// one that is not zero is kept as asked.
pub proof fn law_missing_dimension_kept(width: u32, height: u32, source_width: u32, source_height: u32)
    ensures
        ({
            let (w, h) = output_size(width, height, source_width, source_height);
            &&& width == 0 ==> w == source_width
            &&& width > 0 ==> w == width
            &&& height == 0 ==> h == source_height
            &&& height > 0 ==> h == height
        }),
{
}

/// The original decodes, WebP is chosen, and the output size fits a WebP
/// file: the transform is owed to succeed.
pub open spec fn webp_succeeds(
    original: Seq<u8>,
    width: u32,
    height: u32,
    format: Seq<char>,
    default_format: Seq<char>,
) -> bool {
    &&& decoded_size_of(original) is Some
    &&& encoding_for(format, default_format) == Encoding::WebpLossless
    &&& ({
        let (sw, sh) = decoded_size_of(original)->Some_0;
        let (w, h) = output_size(width, height, sw, sh);
        webp_size_ok(w, h)
    })
}

/// With AVIF chosen and unusable AVIF settings, no transform succeeds.
pub open spec fn refuses_unusable_avif(
    r: Result<Artifact, TransformError>,
    format: Seq<char>,
    default_format: Seq<char>,
    avif: AvifConfig,
) -> bool {
    encoding_for(format, default_format) == Encoding::Avif && !avif_settings_ok(avif) ==> r is Err
}

} // verus!
