use web3_wallet::bytes::{append, push_be32, read_be32, wipe};
use web3_wallet::hex::{decode_hex, encode_hex, hex_char, hex_digit};
use web3_wallet::text::ascii_to_string;

#[test]
fn digits_have_their_values() {
    assert_eq!(hex_digit(b'0'), Some(0));
    assert_eq!(hex_digit(b'9'), Some(9));
    assert_eq!(hex_digit(b'a'), Some(10));
    assert_eq!(hex_digit(b'f'), Some(15));
    assert_eq!(hex_digit(b'A'), Some(10));
    assert_eq!(hex_digit(b'F'), Some(15));
}

#[test]
fn other_bytes_are_no_digits() {
    assert_eq!(hex_digit(b'g'), None);
    assert_eq!(hex_digit(b'G'), None);
    assert_eq!(hex_digit(b'/'), None);
    assert_eq!(hex_digit(b':'), None);
    assert_eq!(hex_digit(b'@'), None);
    assert_eq!(hex_digit(b'`'), None);
    assert_eq!(hex_digit(b' '), None);
    assert_eq!(hex_digit(0x00), None);
    assert_eq!(hex_digit(0xff), None);
}

#[test]
fn digit_characters_are_lower_case() {
    assert_eq!(hex_char(0), b'0');
    assert_eq!(hex_char(9), b'9');
    assert_eq!(hex_char(10), b'a');
    assert_eq!(hex_char(15), b'f');
}

#[test]
fn decode_reads_both_cases() {
    assert_eq!(decode_hex(b"00ff10aB"), Some(vec![0x00, 0xff, 0x10, 0xab]));
    assert_eq!(decode_hex(b"DEADbeef"), Some(vec![0xde, 0xad, 0xbe, 0xef]));
}

#[test]
fn decode_of_nothing_is_nothing() {
    assert_eq!(decode_hex(b""), Some(vec![]));
}

#[test]
fn decode_refuses_odd_length() {
    assert_eq!(decode_hex(b"abc"), None);
    assert_eq!(decode_hex(b"0"), None);
}

#[test]
fn decode_refuses_other_characters() {
    assert_eq!(decode_hex(b"0x12"), None);
    assert_eq!(decode_hex(b"zz"), None);
    assert_eq!(decode_hex(b"1g"), None);
    assert_eq!(decode_hex(b"g1"), None);
    assert_eq!(decode_hex(b"12 4"), None);
}

#[test]
fn encode_writes_lower_case() {
    assert_eq!(encode_hex(&[0x00, 0xff, 0x10, 0xab]), b"00ff10ab".to_vec());
    assert_eq!(encode_hex(&[]), Vec::<u8>::new());
}

#[test]
fn decode_inverts_encode_on_every_byte() {
    let all: Vec<u8> = (0..=255u8).collect();
    let text = encode_hex(&all);
    assert_eq!(text.len(), 512);
    assert_eq!(decode_hex(&text), Some(all));
}

#[test]
fn ascii_bytes_become_the_same_text() {
    assert_eq!(ascii_to_string(b"00ff10ab".to_vec()), "00ff10ab");
    assert_eq!(ascii_to_string(Vec::new()), "");
}

#[test]
fn big_endian_numbers() {
    let mut out = vec![0xaa];
    push_be32(&mut out, 0x0102_0304);
    assert_eq!(out, vec![0xaa, 0x01, 0x02, 0x03, 0x04]);
    push_be32(&mut out, 0);
    push_be32(&mut out, u32::MAX);
    assert_eq!(&out[5..], &[0, 0, 0, 0, 0xff, 0xff, 0xff, 0xff]);
    assert_eq!(read_be32(&[0x01, 0x02, 0x03, 0x04]), 0x0102_0304);
    assert_eq!(read_be32(&[0, 0, 0, 0]), 0);
    assert_eq!(read_be32(&[0xff, 0xff, 0xff, 0xff]), u32::MAX);
    assert_eq!(read_be32(&[0, 0, 0x4c, 0x00]), 19_456);
}

#[test]
fn append_keeps_what_was_there() {
    let mut out = vec![1, 2];
    append(&mut out, &[3, 4, 5]);
    assert_eq!(out, vec![1, 2, 3, 4, 5]);
    append(&mut out, &[]);
    assert_eq!(out, vec![1, 2, 3, 4, 5]);
}

#[test]
fn wipe_leaves_zeros_of_the_same_length() {
    let mut buffer = vec![1, 2, 3, 0xff];
    wipe(&mut buffer);
    assert_eq!(buffer, vec![0, 0, 0, 0]);
    let mut empty: Vec<u8> = Vec::new();
    wipe(&mut empty);
    assert!(empty.is_empty());
}
