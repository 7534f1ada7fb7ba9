//! What a transfer says: who pays whom how much, in the native asset or in a
//! token.

use vstd::prelude::*;
use crate::ethereum::{encode_transfer_call, erc20_transfer_call};

verus! {

/// The length of an account address, in bytes.
pub const ADDRESS_LENGTH: usize = 20;

/// An account or contract address.
#[derive(Clone, Copy, Debug, PartialEq, Eq)]
pub struct Address {
    pub bytes: [u8; 20],
}

/// An amount of up to 256 bits, as four 64-bit limbs, least significant
/// first.
#[derive(Clone, Copy, Debug, PartialEq, Eq)]
pub struct Amount {
    pub limbs: [u64; 4],
}

/// The identifier that the provider gives a submitted transaction.
#[derive(Clone, Copy, Debug, PartialEq, Eq)]
pub struct TransactionHandle {
    pub hash: [u8; 32],
}

/// A transfer that its sender wants carried out.
#[derive(Clone, Copy, Debug, PartialEq, Eq)]
pub struct TransferIntent {
    pub from: Address,
    pub to: Address,
    pub amount: Amount,
    /// The token contract, for a transfer of tokens; none for the native
    /// asset.
    pub token_contract: Option<Address>,
}

impl Address {
    pub open spec fn view(&self) -> Seq<u8> {
        self.bytes@
    }

    /// Takes 20 bytes as an address.
    pub fn from_bytes(bytes: &[u8]) -> (made: Option<Address>)
        ensures
            match made {
                Some(address) => address@ == bytes@,
                None => bytes@.len() != ADDRESS_LENGTH,
            },
    {
        if bytes.len() != ADDRESS_LENGTH {
            return None;
        }
        let mut copy: [u8; 20] = [0u8; 20];
        let mut i: usize = 0;
        while i < 20
            invariant
                i <= 20,
                bytes@.len() == 20,
                forall|j: int| 0 <= j < i ==> copy@[j] == bytes@[j],
            decreases 20 - i,
        {
            copy[i] = bytes[i];
            i = i + 1;
        }
        assert(copy@ =~= bytes@);
        Some(Address { bytes: copy })
    }

    /// Whether two addresses hold the same bytes.
    pub fn same_as(&self, other: &Address) -> (same: bool)
        ensures
            same == (self@ == other@),
    {
        let mut same: bool = true;
        let mut i: usize = 0;
        while i < 20
            invariant
                i <= 20,
                same <==> forall|j: int| 0 <= j < i ==> self.bytes@[j] == other.bytes@[j],
            decreases 20 - i,
        {
            if self.bytes[i] != other.bytes[i] {
                same = false;
            }
            i = i + 1;
        }
        proof {
            if same {
                assert(self@ =~= other@);
            }
        }
        same
    }
}

impl Amount {
    /// The number that the limbs spell.
    pub open spec fn view(&self) -> nat {
        (self.limbs@[0] as nat) + (self.limbs@[1] as nat) * 0x1_0000_0000_0000_0000
            + (self.limbs@[2] as nat) * 0x1_0000_0000_0000_0000_0000_0000_0000_0000
            + (self.limbs@[3] as nat)
            * 0x1_0000_0000_0000_0000_0000_0000_0000_0000_0000_0000_0000_0000
    }

    /// The amount of a 64-bit number.
    pub fn from_u64(value: u64) -> (amount: Amount)
        ensures
            amount@ == value,
    {
        Amount { limbs: [value, 0u64, 0u64, 0u64] }
    }

    /// The amount zero.
    pub fn zero() -> (amount: Amount)
        ensures
            amount@ == 0,
    {
        Amount { limbs: [0u64, 0u64, 0u64, 0u64] }
    }

    /// Whether the amount is zero.
    pub fn is_zero(&self) -> (yes: bool)
        ensures
            yes == (self@ == 0),
    {
        self.limbs[0] == 0 && self.limbs[1] == 0 && self.limbs[2] == 0 && self.limbs[3] == 0
    }
}

impl TransferIntent {
    /// A transfer of the native asset.
    pub fn native(from: Address, to: Address, amount: Amount) -> (intent: TransferIntent)
        ensures
            intent == (TransferIntent { from, to, amount, token_contract: None }),
    {
        TransferIntent { from, to, amount, token_contract: None }
    }

    /// A transfer of tokens of the given contract.
    pub fn token(from: Address, token_contract: Address, to: Address, amount: Amount) -> (intent:
        TransferIntent)
        ensures
            intent == (TransferIntent { from, to, amount, token_contract: Some(token_contract) }),
    {
        TransferIntent { from, to, amount, token_contract: Some(token_contract) }
    }

    /// The address that the transaction is sent to: the token contract for
    /// a transfer of tokens, the recipient otherwise.
    pub open spec fn payload_recipient(self) -> Address {
        match self.token_contract {
            Some(contract) => contract,
            None => self.to,
        }
    }

    /// The native value that the transaction carries: none for a transfer
    /// of tokens, the amount otherwise.
    pub open spec fn payload_value(self) -> nat {
        match self.token_contract {
            Some(_) => 0,
            None => self.amount@,
        }
    }

    /// The call data that the transaction carries: the token contract's
    /// `transfer` call for a transfer of tokens, nothing otherwise.
    pub open spec fn payload_data(self) -> Seq<u8> {
        match self.token_contract {
            Some(_) => erc20_transfer_call(self.to@, self.amount@),
            None => Seq::empty(),
        }
    }

    pub fn recipient_on_chain(&self) -> (recipient: Address)
        ensures
            recipient == self.payload_recipient(),
    {
        match self.token_contract {
            Some(contract) => contract,
            None => self.to,
        }
    }

    pub fn value_on_chain(&self) -> (value: Amount)
        ensures
            value@ == self.payload_value(),
    {
        match self.token_contract {
            Some(_) => Amount::zero(),
            None => self.amount,
        }
    }

    pub fn call_data(&self) -> (data: Vec<u8>)
        ensures
            data@ == self.payload_data(),
    {
        match self.token_contract {
            Some(_) => encode_transfer_call(&self.to, &self.amount),
            None => Vec::new(),
        }
    }
}

} // verus!
