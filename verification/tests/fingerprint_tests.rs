use hash_cache::fingerprint::fingerprint;
use hash_cache::fingerprint::to_hex;

#[test]
fn test_fingerprint_known_vector() {
    // Regression anchor: the SHA-1 digest of a fixed byte sequence.
    let fp = fingerprint(b"abc");
    assert_eq!(fp, "a9993e364706816aba3e25717850c26c9cd0d89d");
}

#[test]
fn test_fingerprint_empty_input() {
    let fp = fingerprint(b"");
    assert_eq!(fp, "da39a3ee5e6b4b0d3255bfef95601890afd80709");
}

#[test]
fn test_fingerprint_deterministic() {
    // Byte-identical content gives the same fingerprint, however the bytes
    // were produced.
    let mut a: Vec<u8> = Vec::new();
    a.extend_from_slice(b"the same bytes");
    let b: Vec<u8> = b"the same bytes".to_vec();
    assert_eq!(fingerprint(&a), fingerprint(&b));
    a.clear();
    a.extend_from_slice(b"the same bytes");
    assert_eq!(fingerprint(&a), fingerprint(&b));
}

#[test]
fn test_fingerprint_sensitive() {
    // Content differing in a single byte gives a different fingerprint.
    assert_ne!(fingerprint(b"abc"), fingerprint(b"abd"));
    assert_ne!(fingerprint(b"abc"), fingerprint(b"ab"));
}

#[test]
fn test_fingerprint_shape() {
    let fp = fingerprint(b"anything at all");
    assert_eq!(fp.len(), 40);
    for c in fp.chars() {
        assert!(c.is_ascii_digit() || ('a'..='f').contains(&c));
    }
}

#[test]
fn test_to_hex_exact() {
    assert_eq!(to_hex(&[]), "");
    assert_eq!(to_hex(&[0x00]), "00");
    assert_eq!(to_hex(&[0xab, 0x01, 0xff]), "ab01ff");
    assert_eq!(to_hex(&[0x12, 0x34, 0x56, 0x78, 0x9a, 0xbc, 0xde, 0xf0]), "123456789abcdef0");
}
