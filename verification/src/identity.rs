//! A signing identity: one secret key bound to one chain.

use vstd::prelude::*;
use vstd::utf8::encode_utf8;
use crate::errors::{ConfigurationError, KeyError, SigningError, WalletError};
use crate::ethereum::{
    address_of_key, derive_address, ecdsa_signed, keccak256, message_digest, sign_digest,
    transaction_digest, transaction_sighash,
};
use crate::message::signed_message_preimage;
use crate::key::{parsed_key, KeyMaterial};
use crate::scalar::is_valid_scalar;
use crate::signature::{
    is_message_v, message_signature, message_signed, signing_outcome, targets_chain,
    transaction_signature, transaction_signed, valid_chain_id, Signature, SignatureView,
    MAX_CHAIN_ID,
};
use crate::transfer::{Address, TransferIntent};

verus! {

/// One unlocked key bound to one chain, for the length of a session.
pub struct SigningIdentity {
    key: KeyMaterial,
    chain_id: u64,
    address: Address,
}

/// What an identity holds.
pub struct IdentityView {
    pub key: Seq<u8>,
    pub chain_id: u64,
}

/// The signing primitive's answer for a key and a digest, as a signature.
pub open spec fn raw_signature(key: Seq<u8>, digest: Seq<u8>) -> Option<SignatureView> {
    match ecdsa_signed(key, digest) {
        Some((r, s, v)) => Some(SignatureView { r, s, v }),
        None => None,
    }
}

/// The digest that is signed for an intent on a chain.
pub open spec fn intent_digest(intent: TransferIntent, chain_id: u64) -> Seq<u8> {
    transaction_sighash(
        chain_id,
        intent.payload_recipient()@,
        intent.payload_value(),
        intent.payload_data(),
    )
}

/// The signature of a message under an identity.
pub open spec fn signed_message(identity: IdentityView, message: Seq<u8>) -> Result<
    SignatureView,
    SigningError,
> {
    message_signed(raw_signature(identity.key, keccak256(signed_message_preimage(message))))
}

/// The signature of an intent under an identity.
pub open spec fn signed_intent(identity: IdentityView, intent: TransferIntent) -> Result<
    SignatureView,
    SigningError,
> {
    transaction_signed(
        raw_signature(identity.key, intent_digest(intent, identity.chain_id)),
        identity.chain_id,
    )
}

/// What binding a key to a chain gives.
pub open spec fn bound(key: Seq<u8>, chain_id: u64) -> Result<IdentityView, ConfigurationError> {
    if valid_chain_id(chain_id) {
        Ok(IdentityView { key, chain_id })
    } else {
        Err(ConfigurationError::UnknownNetwork)
    }
}

/// What importing an encoded key for a chain gives.
pub open spec fn imported(encoded: Seq<u8>, chain_id: u64) -> Result<IdentityView, WalletError> {
    match parsed_key(encoded) {
        Err(e) => Err(WalletError::Key(e)),
        Ok(key) => match bound(key, chain_id) {
            Err(e) => Err(WalletError::Configuration(e)),
            Ok(identity) => Ok(identity),
        },
    }
}

impl SigningIdentity {
    #[verifier::type_invariant]
    closed spec fn well_formed(self) -> bool {
        &&& valid_chain_id(self.chain_id)
        &&& self.address@ == address_of_key(self.key@)
    }

    pub closed spec fn view(&self) -> IdentityView {
        IdentityView { key: self.key@, chain_id: self.chain_id }
    }

    /// Binds a key to a chain. The chain identifier must be at least one
    /// and at most `MAX_CHAIN_ID`.
    pub fn bind(key: KeyMaterial, chain_id: u64) -> (made: Result<
        SigningIdentity,
        ConfigurationError,
    >)
        ensures
            match made {
                Ok(identity) => bound(key@, chain_id) == Ok::<IdentityView, ConfigurationError>(
                    identity@,
                ),
                Err(e) => bound(key@, chain_id) == Err::<IdentityView, ConfigurationError>(e),
            },
    {
        if chain_id < 1 || chain_id > MAX_CHAIN_ID {
            return Err(ConfigurationError::UnknownNetwork);
        }
        let address: Address = derive_address(key.as_bytes());
        Ok(SigningIdentity { key, chain_id, address })
    }

    /// The address of the account that the key controls.
    pub fn address(&self) -> (address: Address)
        ensures
            address@ == address_of_key(self@.key),
    {
        proof {
            use_type_invariant(self);
        }
        self.address
    }

    /// The chain that the identity signs for.
    pub fn chain_id(&self) -> (chain_id: u64)
        ensures
            chain_id == self@.chain_id,
            valid_chain_id(chain_id),
    {
        proof {
            use_type_invariant(self);
        }
        self.chain_id
    }

    /// Signs a message, prefixed and hashed as a message and not as a
    /// transaction.
    pub fn sign_message(&self, message: &[u8]) -> (made: Result<Signature, SigningError>)
        ensures
            signing_outcome(made) == signed_message(self@, message@),
            made matches Ok(sig) ==> forall|chain_id: u64| !targets_chain(sig.v, chain_id),
    {
        let digest: Vec<u8> = message_digest(message);
        let raw: Option<Signature> = sign_digest(self.key.as_bytes(), digest.as_slice());
        message_signature(raw)
    }

    /// Signs a transfer for the chain of this identity.
    pub fn sign_transaction(&self, intent: &TransferIntent) -> (made: Result<
        Signature,
        SigningError,
    >)
        ensures
            signing_outcome(made) == signed_intent(self@, *intent),
            made matches Ok(sig) ==> forall|chain_id: u64|
                targets_chain(sig.v, chain_id) <==> chain_id == self@.chain_id,
    {
        proof {
            use_type_invariant(self);
        }
        let data: Vec<u8> = intent.call_data();
        let recipient: Address = intent.recipient_on_chain();
        let value = intent.value_on_chain();
        let digest: Vec<u8> = transaction_digest(self.chain_id, &recipient, &value, data.as_slice());
        let raw: Option<Signature> = sign_digest(self.key.as_bytes(), digest.as_slice());
        transaction_signature(raw, self.chain_id)
    }
}

/// The same intent signed with the same key for two chains gives two
/// different signatures, and neither is made for the other chain.
pub proof fn lemma_intent_is_bound_to_chain(a: IdentityView, b: IdentityView, intent: TransferIntent)
    requires
        a.key == b.key,
        a.chain_id != b.chain_id,
        signed_intent(a, intent) is Ok,
        signed_intent(b, intent) is Ok,
    ensures
        signed_intent(a, intent) != signed_intent(b, intent),
        !targets_chain(signed_intent(a, intent).unwrap().v, b.chain_id),
        !targets_chain(signed_intent(b, intent).unwrap().v, a.chain_id),
{
}

/// A signature over a message is made for no chain and differs from every
/// signature over a transfer; a signature over a transfer is no signature
/// over a message.
pub proof fn lemma_message_is_no_transaction(
    identity: IdentityView,
    message: Seq<u8>,
    intent: TransferIntent,
    chain_id: u64,
)
    ensures
        signed_message(identity, message) matches Ok(sig) ==> !targets_chain(sig.v, chain_id),
        signed_intent(identity, intent) matches Ok(sig) ==> !is_message_v(sig.v),
        signed_message(identity, message) is Ok && signed_intent(identity, intent) is Ok
            ==> signed_message(identity, message) != signed_intent(identity, intent),
{
}

/// The outcome of making an identity, with the identity taken by what it
/// holds.
pub open spec fn identity_outcome(made: Result<SigningIdentity, WalletError>) -> Result<
    IdentityView,
    WalletError,
> {
    match made {
        Ok(identity) => Ok(identity@),
        Err(e) => Err(e),
    }
}

/// Parses an encoded key and binds it to a chain.
pub fn import_wallet(private_key: &str, chain_id: u64) -> (made: Result<
    SigningIdentity,
    WalletError,
>)
    ensures
        identity_outcome(made) == imported(encode_utf8(private_key@), chain_id),
{
    let key: KeyMaterial = match KeyMaterial::import_from_encoded(private_key) {
        Ok(key) => key,
        Err(e) => {
            return Err(WalletError::Key(e));
        },
    };
    match SigningIdentity::bind(key, chain_id) {
        Ok(identity) => Ok(identity),
        Err(e) => Err(WalletError::Configuration(e)),
    }
}

/// Generates a fresh key and binds it to a chain.
pub fn new_wallet(chain_id: u64) -> (made: Result<SigningIdentity, WalletError>)
    ensures
        match made {
            Ok(identity) => valid_chain_id(chain_id) && identity@.chain_id == chain_id
                && is_valid_scalar(identity@.key),
            Err(e) => if valid_chain_id(chain_id) {
                e == WalletError::Key(KeyError::EntropyUnavailable)
            } else {
                e == WalletError::Configuration(ConfigurationError::UnknownNetwork)
            },
        },
{
    if chain_id < 1 || chain_id > MAX_CHAIN_ID {
        return Err(WalletError::Configuration(ConfigurationError::UnknownNetwork));
    }
    let key: KeyMaterial = match KeyMaterial::generate() {
        Ok(key) => key,
        Err(e) => {
            return Err(WalletError::Key(e));
        },
    };
    match SigningIdentity::bind(key, chain_id) {
        Ok(identity) => Ok(identity),
        Err(e) => Err(WalletError::Configuration(e)),
    }
}

} // verus!
