//! What is hashed when a message is signed.
//!
//! A message is never hashed as it stands: it is prefixed with a byte that
//! no transaction encoding begins with, a fixed line of text and its own
//! length in decimal.

use vstd::prelude::*;
use crate::bytes::append;

verus! {

/// The byte that the preimage of every signed message begins with.
pub const MESSAGE_MARK: u8 = 0x19;

/// The decimal digits of a number, without leading zeros.
pub open spec fn decimal_digits(n: nat) -> Seq<u8>
    decreases n,
{
    if n < 10 {
        seq![(0x30 + n) as u8]
    } else {
        decimal_digits(n / 10).push((0x30 + n % 10) as u8)
    }
}

/// The bytes of `"\x19Ethereum Signed Message:\n"`.
pub open spec fn message_prefix() -> Seq<u8> {
    seq![
        0x19u8, 0x45u8, 0x74u8, 0x68u8, 0x65u8, 0x72u8, 0x65u8, 0x75u8, 0x6du8,
        0x20u8, 0x53u8, 0x69u8, 0x67u8, 0x6eu8, 0x65u8, 0x64u8,
        0x20u8, 0x4du8, 0x65u8, 0x73u8, 0x73u8, 0x61u8, 0x67u8, 0x65u8, 0x3au8, 0x0au8,
    ]
}

/// What is hashed for a message: the prefix, the length of the message in
/// decimal, and the message.
pub open spec fn signed_message_preimage(message: Seq<u8>) -> Seq<u8> {
    message_prefix() + decimal_digits(message.len()) + message
}

/// Writes a number in decimal.
pub fn decimal(n: usize) -> (digits: Vec<u8>)
    ensures
        digits@ == decimal_digits(n as nat),
{
    let mut digits: Vec<u8> = Vec::new();
    let mut rest: usize = n;
    assert(decimal_digits(n as nat) =~= decimal_digits(rest as nat) + digits@);
    while rest >= 10
        invariant
            decimal_digits(n as nat) == decimal_digits(rest as nat) + digits@,
        decreases rest,
    {
        let digit: u8 = 0x30 + (rest % 10) as u8;
        proof {
            let head = decimal_digits((rest / 10) as nat);
            assert(decimal_digits(rest as nat) == head.push(digit));
            assert(head.push(digit) + digits@ =~= head + digits@.insert(0, digit));
        }
        digits.insert(0, digit);
        rest = rest / 10;
    }
    let last: u8 = 0x30 + rest as u8;
    proof {
        assert(decimal_digits(rest as nat) + digits@ =~= digits@.insert(0, last));
    }
    digits.insert(0, last);
    digits
}

/// Builds what is hashed for a message.
pub fn message_preimage(message: &[u8]) -> (preimage: Vec<u8>)
    ensures
        preimage@ == signed_message_preimage(message@),
        preimage@.len() > 0,
        preimage@[0] == MESSAGE_MARK,
{
    let prefix: [u8; 26] = [
        0x19u8, 0x45u8, 0x74u8, 0x68u8, 0x65u8, 0x72u8, 0x65u8, 0x75u8, 0x6du8,
        0x20u8, 0x53u8, 0x69u8, 0x67u8, 0x6eu8, 0x65u8, 0x64u8,
        0x20u8, 0x4du8, 0x65u8, 0x73u8, 0x73u8, 0x61u8, 0x67u8, 0x65u8, 0x3au8, 0x0au8,
    ];
    assert(prefix@ =~= message_prefix());
    let mut preimage: Vec<u8> = Vec::new();
    append(&mut preimage, prefix.as_slice());
    let length: Vec<u8> = decimal(message.len());
    append(&mut preimage, length.as_slice());
    append(&mut preimage, message);
    assert(preimage@ =~= signed_message_preimage(message@));
    preimage
}

/// The preimage of every message begins with the mark.
pub proof fn lemma_preimage_is_marked(message: Seq<u8>)
    ensures
        signed_message_preimage(message).len() >= 27 + message.len(),
        signed_message_preimage(message)[0] == MESSAGE_MARK,
{
    let digits = decimal_digits(message.len());
    assert(digits.len() >= 1) by {
        if message.len() >= 10 {
            assert(digits == decimal_digits(message.len() / 10).push(
                (0x30 + message.len() % 10) as u8,
            ));
        }
    }
    assert(message_prefix().len() == 26);
    assert((message_prefix() + digits).len() == 26 + digits.len());
}

} // verus!
