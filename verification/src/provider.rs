//! Reading what a provider says when it refuses a transaction.
//!
//! Nodes report a refusal as a line of text. The wallet tells apart the two
//! refusals that a caller can act on, an account that cannot pay and a
//! sequence number that does not fit, by the words that nodes use for them.

use vstd::prelude::*;
use vstd::utf8::encode_utf8;
use crate::errors::ProviderFault;

verus! {

/// Whether `needle` stands somewhere in `text`.
pub open spec fn occurs_in(needle: Seq<u8>, text: Seq<u8>) -> bool {
    exists|i: int|
        0 <= i && i + needle.len() <= text.len() && #[trigger] text.subrange(
            i,
            i + needle.len(),
        ) == needle
}

/// The bytes of `insufficient funds`.
pub open spec fn insufficient_funds() -> Seq<u8> {
    seq![
        0x69u8, 0x6eu8, 0x73u8, 0x75u8, 0x66u8, 0x66u8, 0x69u8, 0x63u8, 0x69u8, 0x65u8, 0x6eu8,
        0x74u8, 0x20u8, 0x66u8, 0x75u8, 0x6eu8, 0x64u8, 0x73u8,
    ]
}

/// The bytes of `nonce`.
pub open spec fn nonce_word() -> Seq<u8> {
    seq![0x6eu8, 0x6fu8, 0x6eu8, 0x63u8, 0x65u8]
}

/// The reason that a refusal gives: an account that cannot pay if the text
/// says `insufficient funds`, else a sequence number that does not fit if
/// it says `nonce`, else none in particular.
pub open spec fn refusal_reason(message: Seq<u8>) -> ProviderFault {
    if occurs_in(insufficient_funds(), message) {
        ProviderFault::InsufficientBalance
    } else if occurs_in(nonce_word(), message) {
        ProviderFault::NonceConflict
    } else {
        ProviderFault::Rejected
    }
}

/// Whether `needle` stands somewhere in `text`.
pub fn contains(text: &[u8], needle: &[u8]) -> (found: bool)
    ensures
        found == occurs_in(needle@, text@),
{
    let n: usize = text.len();
    let m: usize = needle.len();
    if m > n {
        return false;
    }
    let mut i: usize = 0;
    while i <= n - m
        invariant
            n == text@.len(),
            m == needle@.len(),
            m <= n,
            i <= n - m + 1,
            forall|j: int| 0 <= j < i ==> #[trigger] text@.subrange(j, j + m) != needle@,
        decreases n - m + 1 - i,
    {
        let mut k: usize = 0;
        while k < m && text[i + k] == needle[k]
            invariant
                n == text@.len(),
                m == needle@.len(),
                i + m <= n,
                k <= m,
                forall|t: int| 0 <= t < k ==> text@[i + t] == needle@[t],
            decreases m - k,
        {
            k = k + 1;
        }
        if k == m {
            assert(text@.subrange(i as int, i + m) =~= needle@);
            return true;
        }
        assert(text@.subrange(i as int, i + m)[k as int] != needle@[k as int]);
        i = i + 1;
    }
    false
}

/// Reads the reason out of the text of a refusal.
pub fn classify_refusal(message: &str) -> (fault: ProviderFault)
    ensures
        fault == refusal_reason(encode_utf8(message@)),
{
    let text: &[u8] = message.as_bytes();
    let funds: [u8; 18] = [
        0x69u8, 0x6eu8, 0x73u8, 0x75u8, 0x66u8, 0x66u8, 0x69u8, 0x63u8, 0x69u8, 0x65u8, 0x6eu8,
        0x74u8, 0x20u8, 0x66u8, 0x75u8, 0x6eu8, 0x64u8, 0x73u8,
    ];
    let nonce: [u8; 5] = [0x6eu8, 0x6fu8, 0x6eu8, 0x63u8, 0x65u8];
    assert(funds@ =~= insufficient_funds());
    assert(nonce@ =~= nonce_word());
    if contains(text, funds.as_slice()) {
        ProviderFault::InsufficientBalance
    } else if contains(text, nonce.as_slice()) {
        ProviderFault::NonceConflict
    } else {
        ProviderFault::Rejected
    }
}

} // verus!
