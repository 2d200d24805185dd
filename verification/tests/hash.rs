use sync_service::hash::{checksum_to_hex, content_checksum};

#[test]
fn checksum_hex_conversion() {
    let bytes = vec![0xab, 0xcd, 0xef, 0x01, 0x23];
    assert_eq!(checksum_to_hex(&bytes), "abcdef0123");
}

#[test]
fn checksum_hex_all_zeros() {
    let bytes = vec![0u8; 20];
    assert_eq!(checksum_to_hex(&bytes), "0000000000000000000000000000000000000000");
}

#[test]
fn checksum_hex_empty_and_extremes() {
    assert_eq!(checksum_to_hex(&[]), "");
    assert_eq!(checksum_to_hex(&[0xff, 0x00, 0x0f, 0xf0, 0x9a]), "ff000ff09a");
}

#[test]
fn content_checksum_of_empty_input() {
    let c = content_checksum(b"");
    assert_eq!(checksum_to_hex(&c), "da39a3ee5e6b4b0d3255bfef95601890afd80709");
}

#[test]
fn content_checksum_of_text() {
    let c = content_checksum(b"abc");
    assert_eq!(c.len(), 20);
    assert_eq!(checksum_to_hex(&c), "a9993e364706816aba3e25717850c26c9cd0d89d");
}

#[test]
fn content_checksum_spans_large_input() {
    // More than one 2048-byte read of the original hashing loop.
    let data = vec![0xABu8; 40960];
    let c = content_checksum(&data);
    assert_eq!(c.len(), 20);
    assert_ne!(c, content_checksum(&data[..40959]));
}
