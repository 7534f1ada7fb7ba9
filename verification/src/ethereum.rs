//! What the wallet takes from the `ethers` crate: the address of a key, the
//! digest of a message and of a transaction, the call data of a token
//! transfer, and the signature of a digest.

use vstd::prelude::*;
use ethers::abi::{AbiParser, Token};
use ethers::signers::{LocalWallet, Signer};
use ethers::types::{TransactionRequest, H160, H256, U256};
use crate::message::signed_message_preimage;
use crate::scalar::is_valid_scalar;
use crate::signature::Signature;
use crate::transfer::{Address, Amount};

verus! {

/// The length of a digest, in bytes.
pub const DIGEST_LENGTH: usize = 32;

/// The Keccak-256 digest of a byte sequence.
pub uninterp spec fn keccak256(data: Seq<u8>) -> Seq<u8>;

/// The address of the account that a secret key controls.
pub uninterp spec fn address_of_key(key: Seq<u8>) -> Seq<u8>;

/// The digest that is signed for a legacy transaction on a chain, which has
/// a recipient, a value and call data, and neither nonce nor gas fields.
pub uninterp spec fn transaction_sighash(
    chain_id: u64,
    to: Seq<u8>,
    value: nat,
    data: Seq<u8>,
) -> Seq<u8>;

/// The call data of `transfer(address,uint256)` for a recipient and an
/// amount.
pub uninterp spec fn erc20_transfer_call(to: Seq<u8>, amount: nat) -> Seq<u8>;

/// The deterministic ECDSA signature of a digest under a secret key on
/// secp256k1, as `r`, `s` and 27 plus the recovery identifier, if the
/// primitive produces one.
pub uninterp spec fn ecdsa_signed(key: Seq<u8>, digest: Seq<u8>) -> Option<
    (Seq<u8>, Seq<u8>, u64),
>;

/// `LocalWallet::from_bytes` and `Signer::address` of `ethers`: a valid
/// scalar always makes a wallet, and its address is the last 20 bytes of
/// the Keccak-256 digest of the public key, which depends on nothing but
/// the key.
#[verifier::external_body]
pub(crate) fn derive_address(key: &[u8]) -> (out: Address)
    requires
        is_valid_scalar(key@),
    ensures
        out@ == address_of_key(key@),
{
    match LocalWallet::from_bytes(key) {
        Ok(wallet) => Address { bytes: wallet.address().0 },
        Err(_) => Address { bytes: [0u8; 20] },
    }
}

/// `ethers::utils::hash_message`: the Keccak-256 digest of the prefix, the
/// decimal length of the message and the message.
#[verifier::external_body]
pub(crate) fn message_digest(message: &[u8]) -> (out: Vec<u8>)
    ensures
        out@ == keccak256(signed_message_preimage(message@)),
        out@.len() == DIGEST_LENGTH,
{
    ethers::utils::hash_message(message).as_bytes().to_vec()
}

/// `TransactionRequest::sighash` of `ethers`, on a request that has the
/// recipient, the value, the call data and the chain identifier set and
/// nothing else: the Keccak-256 digest of the request's RLP encoding, which
/// depends on nothing but these four.
#[verifier::external_body]
pub(crate) fn transaction_digest(
    chain_id: u64,
    to: &Address,
    value: &Amount,
    data: &[u8],
) -> (out: Vec<u8>)
    ensures
        out@ == transaction_sighash(chain_id, to@, value@, data@),
        out@.len() == DIGEST_LENGTH,
{
    let request = TransactionRequest::new()
        .to(H160(to.bytes))
        .value(U256(value.limbs))
        .data(data.to_vec())
        .chain_id(chain_id);
    request.sighash().as_bytes().to_vec()
}

/// `Function::encode_input` of `ethers`, for the function
/// `transfer(address,uint256)`: the selector followed by the two encoded
/// arguments, which depends on nothing but the arguments.
#[verifier::external_body]
pub(crate) fn encode_transfer_call(to: &Address, amount: &Amount) -> (out: Vec<u8>)
    ensures
        out@ == erc20_transfer_call(to@, amount@),
{
    let arguments = [Token::Address(H160(to.bytes)), Token::Uint(U256(amount.limbs))];
    match AbiParser::default().parse_function("transfer(address,uint256)") {
        Ok(function) => function.encode_input(&arguments).unwrap_or_default(),
        Err(_) => Vec::new(),
    }
}

/// `LocalWallet::sign_hash` of `ethers`: the signature of a 32-byte digest
/// with the nonce of RFC 6979, so that it depends on nothing but key and
/// digest. `r` and `s` come as 32 big-endian bytes each, and `v` is 27 plus
/// the recovery identifier, which is at most 3.
#[verifier::external_body]
pub(crate) fn sign_digest(key: &[u8], digest: &[u8]) -> (out: Option<Signature>)
    requires
        is_valid_scalar(key@),
        digest@.len() == DIGEST_LENGTH,
    ensures
        match out {
            Some(sig) => ecdsa_signed(key@, digest@) == Some((sig.r@, sig.s@, sig.v))
                && sig.r@.len() == 32 && sig.s@.len() == 32 && 27 <= sig.v <= 30,
            None => ecdsa_signed(key@, digest@) is None,
        },
{
    let wallet = LocalWallet::from_bytes(key).ok()?;
    let signed = wallet.sign_hash(H256::from_slice(digest)).ok()?;
    let mut r = [0u8; 32];
    let mut s = [0u8; 32];
    signed.r.to_big_endian(&mut r);
    signed.s.to_big_endian(&mut s);
    Some(Signature { r: r.to_vec(), s: s.to_vec(), v: signed.v })
}

} // verus!
