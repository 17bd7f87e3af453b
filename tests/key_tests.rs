use imgcache::key::cache_key;

#[test]
fn cache_key_hashes_bytes_then_parameters() {
    let key = cache_key(b"original", 800, 600, "avif");
    let expected = blake3::hash(b"original800x600:avif").to_hex().to_string();
    assert_eq!(key, expected);
    assert_eq!(key.len(), 64);
    assert!(key.chars().all(|c| c.is_ascii_digit() || ('a'..='f').contains(&c)));
}

#[test]
fn cache_key_is_deterministic() {
    let a = cache_key(&[1, 2, 3], 10, 0, "webp");
    let b = cache_key(&[1, 2, 3], 10, 0, "webp");
    assert_eq!(a, b);
}

#[test]
fn cache_key_changes_with_each_input() {
    let base = cache_key(&[1, 2, 3], 10, 20, "webp");
    assert_ne!(base, cache_key(&[1, 2, 4], 10, 20, "webp"));
    assert_ne!(base, cache_key(&[1, 2, 3], 11, 20, "webp"));
    assert_ne!(base, cache_key(&[1, 2, 3], 10, 21, "webp"));
    assert_ne!(base, cache_key(&[1, 2, 3], 10, 20, "avif"));
    assert_ne!(base, cache_key(&[1, 2, 3], 10, 20, "WEBP"));
}

#[test]
fn cache_key_of_empty_input_and_zero_sizes() {
    let key = cache_key(&[], 0, 0, "");
    assert_eq!(key, blake3::hash(b"0x0:").to_hex().to_string());
}

#[test]
fn cache_key_with_largest_dimensions_and_unicode_format() {
    let key = cache_key(b"x", u32::MAX, u32::MAX, "wébp");
    let msg = "x4294967295x4294967295:wébp";
    assert_eq!(key, blake3::hash(msg.as_bytes()).to_hex().to_string());
}
