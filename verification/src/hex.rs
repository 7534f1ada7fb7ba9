//! Hexadecimal text, as bytes of ASCII.
//!
//! Decoding accepts both cases of the letters; encoding writes lower case.

use vstd::prelude::*;

verus! {

/// The value of a hexadecimal digit, for the bytes that are one.
pub open spec fn hex_digit_value(c: u8) -> Option<u8> {
    if 0x30 <= c <= 0x39 {
        Some((c - 0x30) as u8)
    } else if 0x61 <= c <= 0x66 {
        Some((c - 0x61 + 10) as u8)
    } else if 0x41 <= c <= 0x46 {
        Some((c - 0x41 + 10) as u8)
    } else {
        None
    }
}

/// The lower-case digit of a value below sixteen.
pub open spec fn hex_digit_char(v: u8) -> u8 {
    if v < 10 {
        (0x30 + v) as u8
    } else {
        (0x61 + v - 10) as u8
    }
}

/// An even number of bytes, each of them a hexadecimal digit.
pub open spec fn is_hex_text(text: Seq<u8>) -> bool {
    &&& text.len() % 2 == 0
    &&& forall|i: int| 0 <= i < text.len() ==> (#[trigger] hex_digit_value(text[i])) is Some
}

/// The byte that two digits spell, the first being the high half.
pub open spec fn hex_pair_value(high: u8, low: u8) -> u8 {
    (hex_digit_value(high).unwrap() * 16 + hex_digit_value(low).unwrap()) as u8
}

/// The bytes that a hexadecimal text spells, two digits to a byte.
pub open spec fn hex_decoded(text: Seq<u8>) -> Seq<u8> {
    Seq::new((text.len() / 2) as nat, |i: int| hex_pair_value(text[2 * i], text[2 * i + 1]))
}

/// The lower-case hexadecimal text of a byte sequence.
pub open spec fn hex_encoded(bytes: Seq<u8>) -> Seq<u8> {
    Seq::new(
        2 * bytes.len(),
        |i: int|
            if i % 2 == 0 {
                hex_digit_char(bytes[i / 2] / 16)
            } else {
                hex_digit_char(bytes[i / 2] % 16)
            },
    )
}

/// Reads one hexadecimal digit.
pub fn hex_digit(c: u8) -> (v: Option<u8>)
    ensures
        v == hex_digit_value(c),
{
    if 0x30 <= c && c <= 0x39 {
        Some(c - 0x30)
    } else if 0x61 <= c && c <= 0x66 {
        Some(c - 0x61 + 10)
    } else if 0x41 <= c && c <= 0x46 {
        Some(c - 0x41 + 10)
    } else {
        None
    }
}

/// Decodes a hexadecimal text, or says that it is none.
pub fn decode_hex(text: &[u8]) -> (out: Option<Vec<u8>>)
    ensures
        match out {
            Some(bytes) => is_hex_text(text@) && bytes@ == hex_decoded(text@),
            None => !is_hex_text(text@),
        },
{
    let n: usize = text.len();
    if n % 2 != 0 {
        return None;
    }
    let mut bytes: Vec<u8> = Vec::new();
    let mut i: usize = 0;
    while i < n
        invariant
            n == text@.len(),
            n % 2 == 0,
            i % 2 == 0,
            i <= n,
            bytes@.len() == i / 2,
            forall|j: int| 0 <= j < i ==> (#[trigger] hex_digit_value(text@[j])) is Some,
            forall|k: int|
                0 <= k < bytes@.len() ==> bytes@[k] == hex_pair_value(
                    text@[2 * k],
                    text@[2 * k + 1],
                ),
        decreases n - i,
    {
        let high: Option<u8> = hex_digit(text[i]);
        let low: Option<u8> = hex_digit(text[i + 1]);
        match (high, low) {
            (Some(h), Some(l)) => {
                bytes.push(h * 16 + l);
            },
            _ => {
                assert(hex_digit_value(text@[i as int]) is None || hex_digit_value(
                    text@[i + 1],
                ) is None);
                return None;
            },
        }
        i = i + 2;
    }
    assert(bytes@ =~= hex_decoded(text@));
    Some(bytes)
}

/// Writes one value below sixteen as a lower-case digit.
pub fn hex_char(v: u8) -> (c: u8)
    requires
        v < 16,
    ensures
        c == hex_digit_char(v),
        hex_digit_value(c) == Some(v),
        c < 0x80,
{
    if v < 10 {
        0x30 + v
    } else {
        0x61 + (v - 10)
    }
}

/// Encodes bytes as lower-case hexadecimal text.
pub fn encode_hex(bytes: &[u8]) -> (text: Vec<u8>)
    requires
        2 * bytes@.len() <= usize::MAX,
    ensures
        text@ == hex_encoded(bytes@),
{
    let n: usize = bytes.len();
    let mut text: Vec<u8> = Vec::new();
    let mut i: usize = 0;
    while i < n
        invariant
            n == bytes@.len(),
            i <= n,
            text@.len() == 2 * i,
            forall|j: int| 0 <= j < text@.len() ==> text@[j] == hex_encoded(bytes@)[j],
        decreases n - i,
    {
        let b: u8 = bytes[i];
        text.push(hex_char(b / 16));
        text.push(hex_char(b % 16));
        i = i + 1;
    }
    assert(text@ =~= hex_encoded(bytes@));
    text
}

/// Encoded text is ASCII, made of digits, and twice as long as the bytes.
pub proof fn lemma_hex_encoded_is_hex_text(bytes: Seq<u8>)
    ensures
        hex_encoded(bytes).len() == 2 * bytes.len(),
        is_hex_text(hex_encoded(bytes)),
        forall|i: int| 0 <= i < hex_encoded(bytes).len() ==> hex_encoded(bytes)[i] < 0x80,
{
    let text = hex_encoded(bytes);
    assert forall|i: int| 0 <= i < text.len() implies (#[trigger] hex_digit_value(text[i])) is Some
        && text[i] < 0x80 by {
        let b = bytes[i / 2];
        assert(b / 16 < 16 && b % 16 < 16);
    }
}

/// Decoding what was encoded gives the bytes back.
pub proof fn lemma_hex_round_trip(bytes: Seq<u8>)
    ensures
        is_hex_text(hex_encoded(bytes)),
        hex_decoded(hex_encoded(bytes)) == bytes,
{
    lemma_hex_encoded_is_hex_text(bytes);
    let text = hex_encoded(bytes);
    assert forall|k: int| 0 <= k < bytes.len() implies hex_decoded(text)[k] == bytes[k] by {
        let b = bytes[k];
        assert((2 * k) % 2 == 0 && (2 * k) / 2 == k);
        assert((2 * k + 1) % 2 == 1 && (2 * k + 1) / 2 == k);
        assert(b / 16 < 16 && b % 16 < 16);
        assert(hex_digit_value(hex_digit_char(b / 16)) == Some((b / 16) as u8));
        assert(hex_digit_value(hex_digit_char(b % 16)) == Some((b % 16) as u8));
        assert((b / 16) * 16 + b % 16 == b);
    }
    assert(hex_decoded(text) =~= bytes);
}

} // verus!
