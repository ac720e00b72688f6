use md5::Digest;
use md5_hasher::hasher::{Digester, DIGEST_LEN};
use md5_hasher::hex::to_upper_hex;
use md5_hasher::job::sidecar_for_bytes;

fn hex_digest(content: &[u8]) -> String {
    let mut digester = Digester::new();
    digester.update(content);
    to_upper_hex(&digester.finalize())
}

fn reference_hex(content: &[u8]) -> String {
    format!("{:X}", md5::Md5::digest(content))
}

fn sample(len: usize) -> Vec<u8> {
    let mut bytes = Vec::with_capacity(len);
    let mut state: u32 = 0x1234_5678;
    for _ in 0..len {
        state = state.wrapping_mul(1_103_515_245).wrapping_add(12_345);
        bytes.push((state >> 16) as u8);
    }
    bytes
}

#[test]
fn empty_input_has_the_well_known_digest() {
    let digest = Digester::new().finalize();
    let expected: [u8; 16] = [
        0xd4, 0x1d, 0x8c, 0xd9, 0x8f, 0x00, 0xb2, 0x04, 0xe9, 0x80, 0x09, 0x98, 0xec, 0xf8, 0x42,
        0x7e,
    ];
    assert_eq!(digest, expected);
    assert_eq!(digest.len(), DIGEST_LEN);
    assert_eq!(hex_digest(b""), "D41D8CD98F00B204E9800998ECF8427E");
}

#[test]
fn published_test_vectors_match() {
    assert_eq!(hex_digest(b"a"), "0CC175B9C0F1B6A831C399E269772661");
    assert_eq!(hex_digest(b"abc"), "900150983CD24FB0D6963F7D28E17F72");
    assert_eq!(hex_digest(b"message digest"), "F96B697D7CB7938D525A2F31AAF161D0");
    assert_eq!(
        hex_digest(b"abcdefghijklmnopqrstuvwxyz"),
        "C3FCD3D76192E4007DFB496CCA67E13B"
    );
    assert_eq!(
        hex_digest(b"ABCDEFGHIJKLMNOPQRSTUVWXYZabcdefghijklmnopqrstuvwxyz0123456789"),
        "D174AB98D277D9F5A5611C2C9F419D9F"
    );
    assert_eq!(
        hex_digest(
            b"12345678901234567890123456789012345678901234567890123456789012345678901234567890"
        ),
        "57EDF4A22BE3C955AC49DA2E2107B67A"
    );
}

#[test]
fn well_known_sentences_match() {
    assert_eq!(hex_digest(b"hello world"), "5EB63BBBE01EEED093CB22BB8F5ACDC3");
    assert_eq!(
        hex_digest(b"The quick brown fox jumps over the lazy dog"),
        "9E107D9D372BB6826BD81D3542A419D6"
    );
    assert_eq!(
        hex_digest(b"The quick brown fox jumps over the lazy dog."),
        "E4D909C290D0FB1CA068FFADDF22CBD0"
    );
}

#[test]
fn digest_agrees_with_the_one_shot_digest_of_the_hash_crate() {
    for len in [0usize, 1, 2, 55, 56, 57, 63, 64, 65, 119, 120, 128, 1000, 1023, 1024, 1025, 5000]
    {
        let content = sample(len);
        assert_eq!(hex_digest(&content), reference_hex(&content), "length {}", len);
    }
}

#[test]
fn update_changes_what_the_digest_is_of() {
    let mut digester = Digester::new();
    digester.update(b"abc");
    assert_ne!(digester.finalize(), Digester::new().finalize());
}

#[test]
fn updates_join_in_order() {
    let mut pieces = Digester::new();
    pieces.update(b"hello");
    pieces.update(b"");
    pieces.update(b" ");
    pieces.update(b"world");
    let mut whole = Digester::new();
    whole.update(b"hello world");
    assert_eq!(pieces.finalize(), whole.finalize());

    let mut swapped = Digester::new();
    swapped.update(b"world");
    swapped.update(b" ");
    swapped.update(b"hello");
    let mut again = Digester::new();
    again.update(b"hello world");
    assert_ne!(swapped.finalize(), again.finalize());
}

#[test]
fn chunk_size_does_not_change_the_digest() {
    let content = sample(5000);
    let expected = format!("{}\n", reference_hex(&content));
    for chunk_size in [1usize, 2, 3, 7, 63, 64, 65, 1000, 1024, 4096, 4999, 5000, 5001, usize::MAX]
    {
        let sidecar = sidecar_for_bytes("input.bin", &content, chunk_size).unwrap();
        assert_eq!(sidecar.content, expected, "chunk size {}", chunk_size);
    }
}

#[test]
fn upper_hex_of_given_bytes() {
    assert_eq!(to_upper_hex(&[]), "");
    assert_eq!(to_upper_hex(&[0x00]), "00");
    assert_eq!(to_upper_hex(&[0x0f, 0xf0]), "0FF0");
    assert_eq!(to_upper_hex(&[0x01, 0x23, 0x45, 0x67, 0x89, 0xab, 0xcd, 0xef]), "0123456789ABCDEF");
    assert_eq!(to_upper_hex(&[0xff, 0xa0, 0x9a, 0x10]), "FFA09A10");
}

#[test]
fn upper_hex_has_two_uppercase_digits_for_every_byte() {
    let all: Vec<u8> = (0..=255u8).collect();
    let text = to_upper_hex(&all);
    assert_eq!(text.len(), 512);
    for (i, byte) in all.iter().enumerate() {
        assert_eq!(&text[2 * i..2 * i + 2], format!("{:02X}", byte));
    }
}
