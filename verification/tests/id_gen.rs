//! Tests for the short-identifier generator.

use shorty::id::IdGen;

#[test]
fn ids_are_sixteen_lowercase_hex_characters() {
    let mut gen = IdGen::new();
    for url in ["https://example.com", "http://a", "https://unicode.example/\u{00e9}"] {
        let id = gen.generate_id(url);
        assert_eq!(id.len(), 16);
        assert!(id.chars().all(|c| c.is_ascii_hexdigit() && !c.is_ascii_uppercase()));
    }
}

#[test]
fn ids_are_stable_for_a_url_and_salt() {
    let mut a = IdGen::with_salt(5);
    let mut b = IdGen::with_salt(5);
    assert_eq!(a.generate_id("https://example.com"), b.generate_id("https://example.com"));
}

#[test]
fn generator_has_exact_known_values() {
    // FNV-1a over the URL's bytes, seeded with the salt, in hexadecimal.
    let mut gen = IdGen::new();
    assert_eq!(gen.generate_id("https://example.com"), "c673865f8a6ec67d");
    assert_eq!(gen.generate_id("https://example.com"), "065079708b65e51c");

    let mut salted = IdGen::with_salt(5);
    assert_eq!(salted.generate_id("https://example.com"), "75c20c90d76c91a0");
    assert_eq!(IdGen::new().generate_id("https://a.com"), "0c658adaf0090f8c");
}

#[test]
fn successive_calls_yield_new_candidates() {
    let mut gen = IdGen::new();
    let first = gen.generate_id("https://example.com");
    let second = gen.generate_id("https://example.com");
    assert_ne!(first, second);
}
