//! Secret scalars of the secp256k1 group, as 32 big-endian bytes.
//!
//! A secret key is a number from one up to, and not including, the order of
//! the group. Whether bytes are one is decided by reading every byte,
//! whatever the bytes hold.

use vstd::prelude::*;

verus! {

/// The number that a byte sequence spells, most significant byte first.
pub open spec fn be_value(bytes: Seq<u8>) -> nat
    decreases bytes.len(),
{
    if bytes.len() == 0 {
        0
    } else {
        be_value(bytes.drop_last()) * 256 + bytes.last() as nat
    }
}

/// The order of the secp256k1 group, most significant byte first.
pub open spec fn group_order() -> Seq<u8> {
    seq![
        0xFFu8, 0xFFu8, 0xFFu8, 0xFFu8, 0xFFu8, 0xFFu8, 0xFFu8, 0xFFu8,
        0xFFu8, 0xFFu8, 0xFFu8, 0xFFu8, 0xFFu8, 0xFFu8, 0xFFu8, 0xFEu8,
        0xBAu8, 0xAEu8, 0xDCu8, 0xE6u8, 0xAFu8, 0x48u8, 0xA0u8, 0x3Bu8,
        0xBFu8, 0xD2u8, 0x5Eu8, 0x8Cu8, 0xD0u8, 0x36u8, 0x41u8, 0x41u8,
    ]
}

/// Thirty-two bytes that spell a number from one to the group order less one.
pub open spec fn is_valid_scalar(bytes: Seq<u8>) -> bool {
    &&& bytes.len() == 32
    &&& 0 < be_value(bytes)
    &&& be_value(bytes) < be_value(group_order())
}

/// One more byte at the end multiplies the number by 256 and adds the byte.
pub proof fn lemma_be_value_step(bytes: Seq<u8>, n: int)
    requires
        0 <= n < bytes.len(),
    ensures
        be_value(bytes.take(n + 1)) == be_value(bytes.take(n)) * 256 + bytes[n] as nat,
{
    let longer = bytes.take(n + 1);
    assert(longer.drop_last() =~= bytes.take(n));
    assert(longer.last() == bytes[n]);
}

fn group_order_bytes() -> (order: [u8; 32])
    ensures
        order@ == group_order(),
{
    let order: [u8; 32] = [
        0xFFu8, 0xFFu8, 0xFFu8, 0xFFu8, 0xFFu8, 0xFFu8, 0xFFu8, 0xFFu8,
        0xFFu8, 0xFFu8, 0xFFu8, 0xFFu8, 0xFFu8, 0xFFu8, 0xFFu8, 0xFEu8,
        0xBAu8, 0xAEu8, 0xDCu8, 0xE6u8, 0xAFu8, 0x48u8, 0xA0u8, 0x3Bu8,
        0xBFu8, 0xD2u8, 0x5Eu8, 0x8Cu8, 0xD0u8, 0x36u8, 0x41u8, 0x41u8,
    ];
    assert(order@ =~= group_order());
    order
}

/// Whether the bytes are a secret scalar of the group.
pub fn scalar_in_range(bytes: &[u8]) -> (ok: bool)
    ensures
        ok == is_valid_scalar(bytes@),
{
    if bytes.len() != 32 {
        return false;
    }
    let order: [u8; 32] = group_order_bytes();
    let mut below: bool = false;
    let mut same: bool = true;
    let mut nonzero: bool = false;
    let mut i: usize = 0;
    while i < 32
        invariant
            i <= 32,
            bytes@.len() == 32,
            order@ == group_order(),
            order@.len() == 32,
            same <==> be_value(bytes@.take(i as int)) == be_value(order@.take(i as int)),
            below <==> be_value(bytes@.take(i as int)) < be_value(order@.take(i as int)),
            nonzero <==> be_value(bytes@.take(i as int)) > 0,
        decreases 32 - i,
    {
        let x: u8 = bytes[i];
        let y: u8 = order[i];
        proof {
            lemma_be_value_step(bytes@, i as int);
            lemma_be_value_step(order@, i as int);
        }
        if same {
            if x < y {
                below = true;
                same = false;
            } else if x > y {
                same = false;
            }
        }
        if x != 0 {
            nonzero = true;
        }
        i = i + 1;
    }
    proof {
        assert(bytes@.take(32) =~= bytes@);
        assert(order@.take(32) =~= order@);
    }
    below && nonzero
}

} // verus!
