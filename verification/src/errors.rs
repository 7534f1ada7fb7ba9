//! Typed failures of the wallet core.
//!
//! Every operation reports its failure as one of these values; nothing is
//! retried and nothing is swallowed.

use vstd::prelude::*;

verus! {

/// A network could not be resolved.
#[derive(Clone, Copy, Debug, PartialEq, Eq, Structural)]
pub enum ConfigurationError {
    /// The identifier names no network of the catalog, or lies outside the
    /// range of chain identifiers that a signature can carry.
    UnknownNetwork,
}

/// A secret key could not be produced.
#[derive(Clone, Copy, Debug, PartialEq, Eq, Structural)]
pub enum KeyError {
    /// The encoding is not hexadecimal or does not hold exactly 32 bytes.
    MalformedKey,
    /// The 32 bytes decode to zero or to a value not below the group order.
    InvalidKeyValue,
    /// The operating system could not supply randomness.
    EntropyUnavailable,
}

/// The vault could not lock or unlock a key.
#[derive(Clone, Copy, Debug, PartialEq, Eq, Structural)]
pub enum VaultError {
    /// The work parameters of the key-derivation function are out of range,
    /// or the password is longer than the function accepts.
    KdfFailure,
    /// The authentication tag did not verify under the key derived from the
    /// password, or what was authenticated is not a secret key.
    WrongPassword,
    /// The parts of a blob do not have the sizes of the stored layout, or its
    /// text form is not the hexadecimal encoding of that layout.
    MalformedBlob,
}

/// A signature could not be produced.
#[derive(Clone, Copy, Debug, PartialEq, Eq, Structural)]
pub enum SigningError {
    /// The signing primitive failed or returned a recovery identifier that
    /// the signature formats in use cannot carry.
    SigningFailure,
}

/// What the provider reported when it refused a submission.
#[derive(Clone, Copy, Debug, PartialEq, Eq, Structural)]
pub enum ProviderFault {
    /// The account cannot cover the amount and the fee.
    InsufficientBalance,
    /// The sequence number of the transaction is already used or too far ahead.
    NonceConflict,
    /// The node could not be reached.
    NetworkUnreachable,
    /// Any other refusal.
    Rejected,
}

/// A transfer was not carried out, or its fate is not known.
#[derive(Clone, Copy, Debug, PartialEq, Eq, Structural)]
pub enum SubmissionError {
    /// The provider refused the signed payload for the given reason.
    SubmissionFailure(ProviderFault),
    /// The submission was cancelled in flight: the payload may or may not
    /// have been broadcast, and only the chain state can tell.
    UnknownOutcome,
}

/// Any failure of the wallet core, by the component that raised it.
#[derive(Clone, Copy, Debug, PartialEq, Eq, Structural)]
pub enum WalletError {
    Configuration(ConfigurationError),
    Key(KeyError),
    Vault(VaultError),
    Signing(SigningError),
    Submission(SubmissionError),
}

} // verus!
