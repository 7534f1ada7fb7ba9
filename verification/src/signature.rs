//! Recoverable signatures and the two domains they are made for.
//!
//! A signature over a message carries `v` = 27 or 28. A signature over a
//! transaction carries `v` = 35 + 2 * chain + recovery bit, so that it names
//! the one chain it was made for. The two ranges do not meet, and no two
//! chains share a value of `v`.

use vstd::prelude::*;
use crate::errors::SigningError;

verus! {

/// The value of `v` of a message signature with recovery bit zero.
pub const MESSAGE_V: u64 = 27;

/// The value of `v` of a transaction signature with recovery bit zero on
/// chain zero.
pub const CHAIN_V: u64 = 35;

/// The largest chain identifier for which `v` fits 64 bits with room to
/// spare: 2^63 - 37.
pub const MAX_CHAIN_ID: u64 = 9_223_372_036_854_775_771;

/// The length of each half of a signature, in bytes.
pub const HALF_LENGTH: usize = 32;

/// A recoverable ECDSA signature: `r` and `s` as 32 big-endian bytes each,
/// and the recovery value `v`.
#[derive(Clone, Debug, PartialEq, Eq)]
pub struct Signature {
    pub r: Vec<u8>,
    pub s: Vec<u8>,
    pub v: u64,
}

/// What a signature holds.
pub struct SignatureView {
    pub r: Seq<u8>,
    pub s: Seq<u8>,
    pub v: u64,
}

/// A chain identifier that a signature can be bound to.
pub open spec fn valid_chain_id(chain_id: u64) -> bool {
    1 <= chain_id <= MAX_CHAIN_ID
}

/// The value of `v` of a message signature.
pub open spec fn is_message_v(v: u64) -> bool {
    v == MESSAGE_V || v == MESSAGE_V + 1
}

/// The value of `v` that binds a recovery bit to a chain.
pub open spec fn chain_v(recovery: u64, chain_id: u64) -> int {
    recovery + CHAIN_V + 2 * chain_id
}

/// Whether `v` is one of the two values made for the chain.
pub open spec fn targets_chain(v: u64, chain_id: u64) -> bool {
    valid_chain_id(chain_id) && (v == chain_v(0, chain_id) || v == chain_v(1, chain_id))
}

/// The chain that a value of `v` names, if it names one.
pub open spec fn chain_of_v(v: u64) -> Option<u64> {
    if v >= CHAIN_V + 2 && (v - CHAIN_V) / 2 <= MAX_CHAIN_ID {
        Some(((v - CHAIN_V) / 2) as u64)
    } else {
        None
    }
}

/// Both halves have 32 bytes and the recovery bit is zero or one.
pub open spec fn is_plain(raw: SignatureView) -> bool {
    &&& raw.r.len() == HALF_LENGTH
    &&& raw.s.len() == HALF_LENGTH
    &&& is_message_v(raw.v)
}

/// What the signing primitive's answer becomes as a message signature: the
/// answer itself, if its recovery bit is zero or one.
pub open spec fn message_signed(raw: Option<SignatureView>) -> Result<SignatureView, SigningError> {
    match raw {
        Some(sig) => if is_plain(sig) {
            Ok(sig)
        } else {
            Err(SigningError::SigningFailure)
        },
        None => Err(SigningError::SigningFailure),
    }
}

/// What the signing primitive's answer becomes as a transaction signature
/// for a chain: the same `r` and `s`, and the recovery bit bound to the
/// chain.
pub open spec fn transaction_signed(raw: Option<SignatureView>, chain_id: u64) -> Result<
    SignatureView,
    SigningError,
> {
    match raw {
        Some(sig) => if is_plain(sig) && valid_chain_id(chain_id) {
            Ok(
                SignatureView {
                    r: sig.r,
                    s: sig.s,
                    v: chain_v((sig.v - MESSAGE_V) as u64, chain_id) as u64,
                },
            )
        } else {
            Err(SigningError::SigningFailure)
        },
        None => Err(SigningError::SigningFailure),
    }
}

/// The outcome of signing, with the signature taken by what it holds.
pub open spec fn signing_outcome(made: Result<Signature, SigningError>) -> Result<
    SignatureView,
    SigningError,
> {
    match made {
        Ok(sig) => Ok(sig@),
        Err(e) => Err(e),
    }
}

/// The primitive's answer, taken by what it holds.
pub open spec fn raw_view(raw: Option<Signature>) -> Option<SignatureView> {
    match raw {
        Some(sig) => Some(sig@),
        None => None,
    }
}

impl Signature {
    pub open spec fn view(&self) -> SignatureView {
        SignatureView { r: self.r@, s: self.s@, v: self.v }
    }

    /// Whether this is a signature over a message.
    pub fn is_message_signature(&self) -> (yes: bool)
        ensures
            yes == is_message_v(self.v),
    {
        self.v == MESSAGE_V || self.v == MESSAGE_V + 1
    }

    /// The chain that this signature was made for, if it is a signature
    /// over a transaction.
    pub fn chain_id(&self) -> (chain: Option<u64>)
        ensures
            chain == chain_of_v(self.v),
            forall|id: u64| targets_chain(self.v, id) <==> chain == Some(id),
    {
        if self.v >= CHAIN_V + 2 && (self.v - CHAIN_V) / 2 <= MAX_CHAIN_ID {
            Some((self.v - CHAIN_V) / 2)
        } else {
            None
        }
    }

    /// Whether this signature was made for the given chain.
    pub fn is_for_chain(&self, chain_id: u64) -> (yes: bool)
        ensures
            yes == targets_chain(self.v, chain_id),
    {
        match self.chain_id() {
            Some(id) => id == chain_id,
            None => false,
        }
    }
}

/// Takes the signing primitive's answer as a signature over a message.
pub fn message_signature(raw: Option<Signature>) -> (made: Result<Signature, SigningError>)
    ensures
        signing_outcome(made) == message_signed(raw_view(raw)),
{
    match raw {
        Some(sig) => {
            if sig.r.len() == HALF_LENGTH && sig.s.len() == HALF_LENGTH && (sig.v == MESSAGE_V
                || sig.v == MESSAGE_V + 1) {
                Ok(sig)
            } else {
                Err(SigningError::SigningFailure)
            }
        },
        None => Err(SigningError::SigningFailure),
    }
}

/// Takes the signing primitive's answer as a signature over a transaction
/// on the given chain.
pub fn transaction_signature(raw: Option<Signature>, chain_id: u64) -> (made: Result<
    Signature,
    SigningError,
>)
    ensures
        signing_outcome(made) == transaction_signed(raw_view(raw), chain_id),
        made matches Ok(sig) ==> targets_chain(sig.v, chain_id),
{
    match raw {
        Some(sig) => {
            if sig.r.len() == HALF_LENGTH && sig.s.len() == HALF_LENGTH && (sig.v == MESSAGE_V
                || sig.v == MESSAGE_V + 1) && 1 <= chain_id && chain_id <= MAX_CHAIN_ID {
                let recovery: u64 = sig.v - MESSAGE_V;
                Ok(Signature { r: sig.r, s: sig.s, v: recovery + CHAIN_V + 2 * chain_id })
            } else {
                Err(SigningError::SigningFailure)
            }
        },
        None => Err(SigningError::SigningFailure),
    }
}

/// Two transaction signatures made for different chains differ, whatever
/// was signed and whoever signed it.
pub proof fn lemma_chain_binding(
    raw_a: Option<SignatureView>,
    chain_a: u64,
    raw_b: Option<SignatureView>,
    chain_b: u64,
)
    requires
        chain_a != chain_b,
        transaction_signed(raw_a, chain_a) is Ok,
        transaction_signed(raw_b, chain_b) is Ok,
    ensures
        transaction_signed(raw_a, chain_a).unwrap().v != transaction_signed(
            raw_b,
            chain_b,
        ).unwrap().v,
        transaction_signed(raw_a, chain_a) != transaction_signed(raw_b, chain_b),
{
}

/// A transaction signature names the chain it was made for and no other.
pub proof fn lemma_signature_names_chain(raw: Option<SignatureView>, chain_id: u64, other: u64)
    requires
        transaction_signed(raw, chain_id) is Ok,
    ensures
        chain_of_v(transaction_signed(raw, chain_id).unwrap().v) == Some(chain_id),
        targets_chain(transaction_signed(raw, chain_id).unwrap().v, other) <==> other == chain_id,
{
}

/// A message signature is made for no chain, and a transaction signature is
/// no message signature.
pub proof fn lemma_domains_apart(raw: Option<SignatureView>, chain_id: u64, other: u64)
    ensures
        message_signed(raw) matches Ok(sig) ==> !targets_chain(sig.v, other) && chain_of_v(sig.v)
            is None,
        transaction_signed(raw, chain_id) matches Ok(sig) ==> !is_message_v(sig.v),
        message_signed(raw) is Ok && transaction_signed(raw, chain_id) is Ok ==> message_signed(
            raw,
        ) != transaction_signed(raw, chain_id),
{
}

} // verus!
