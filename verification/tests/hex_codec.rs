use da_client::hex::decode_hex;
use da_client::hex::encode_hex;

#[test]
fn empty_blob_round_trips() {
    let blob: Vec<u8> = Vec::new();
    let encoded = encode_hex(&blob);
    assert_eq!(encoded, "");
    assert_eq!(decode_hex(&encoded), Some(blob));
}

#[test]
fn encode_is_lowercase_two_digits_per_byte() {
    let blob: Vec<u8> = vec![0x00, 0xab, 0xff];
    assert_eq!(encode_hex(&blob), "00abff");
}

#[test]
fn encode_agrees_with_hex_crate() {
    let mut blob: Vec<u8> = Vec::new();
    for b in 0..=255u8 {
        blob.push(b);
    }
    assert_eq!(encode_hex(&blob), hex::encode(&blob));
}

#[test]
fn large_blob_round_trips() {
    let mut blob: Vec<u8> = Vec::new();
    for i in 0..70_000usize {
        blob.push((i % 251) as u8);
    }
    let encoded = encode_hex(&blob);
    assert_eq!(encoded.len(), 2 * blob.len());
    assert_eq!(decode_hex(&encoded), Some(blob));
}

#[test]
fn decode_exact_value() {
    assert_eq!(decode_hex("00abff"), Some(vec![0x00, 0xab, 0xff]));
}

#[test]
fn decode_rejects_odd_length() {
    assert_eq!(decode_hex("abc"), None);
}

#[test]
fn decode_rejects_non_hex_characters() {
    assert_eq!(decode_hex("zz"), None);
    assert_eq!(decode_hex("0g"), None);
}

#[test]
fn decode_rejects_uppercase() {
    assert_eq!(decode_hex("AB"), None);
}
