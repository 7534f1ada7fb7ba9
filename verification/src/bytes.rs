//! Small operations on byte buffers.

use vstd::prelude::*;

verus! {

/// The big-endian bytes of a 32-bit number.
pub open spec fn be32(x: u32) -> Seq<u8> {
    seq![
        (x / 0x100_0000) as u8,
        (x / 0x1_0000 % 0x100) as u8,
        (x / 0x100 % 0x100) as u8,
        (x % 0x100) as u8,
    ]
}

/// The 32-bit number that four big-endian bytes spell.
pub open spec fn from_be32(bytes: Seq<u8>) -> u32 {
    (bytes[0] as int * 0x100_0000 + bytes[1] as int * 0x1_0000 + bytes[2] as int * 0x100
        + bytes[3] as int) as u32
}

/// Reading the bytes of a number gives the number back.
pub proof fn lemma_be32_round_trip(x: u32)
    ensures
        be32(x).len() == 4,
        from_be32(be32(x)) == x,
{
}

/// Appends the big-endian bytes of a number.
pub fn push_be32(out: &mut Vec<u8>, x: u32)
    ensures
        final(out)@ == old(out)@ + be32(x),
{
    out.push((x / 0x100_0000) as u8);
    out.push((x / 0x1_0000 % 0x100) as u8);
    out.push((x / 0x100 % 0x100) as u8);
    out.push((x % 0x100) as u8);
    assert(out@ =~= old(out)@ + be32(x));
}

/// Reads a number from four big-endian bytes.
pub fn read_be32(bytes: &[u8]) -> (x: u32)
    requires
        bytes@.len() == 4,
    ensures
        x == from_be32(bytes@),
{
    let b0: u32 = bytes[0] as u32;
    let b1: u32 = bytes[1] as u32;
    let b2: u32 = bytes[2] as u32;
    let b3: u32 = bytes[3] as u32;
    b0 * 0x100_0000 + b1 * 0x1_0000 + b2 * 0x100 + b3
}

/// Appends a copy of `source`.
pub fn append(out: &mut Vec<u8>, source: &[u8])
    ensures
        final(out)@ == old(out)@ + source@,
{
    let n: usize = source.len();
    let mut i: usize = 0;
    while i < n
        invariant
            n == source@.len(),
            i <= n,
            out@ == old(out)@ + source@.take(i as int),
        decreases n - i,
    {
        out.push(source[i]);
        assert(out@ =~= old(out)@ + source@.take(i + 1));
        i = i + 1;
    }
    assert(source@.take(n as int) =~= source@);
}

/// Overwrites a buffer with zeros.
pub fn wipe(buffer: &mut Vec<u8>)
    ensures
        final(buffer)@.len() == old(buffer)@.len(),
        forall|i: int| 0 <= i < final(buffer)@.len() ==> final(buffer)@[i] == 0u8,
{
    let n: usize = buffer.len();
    let mut i: usize = 0;
    while i < n
        invariant
            n == buffer@.len(),
            i <= n,
            forall|j: int| 0 <= j < i ==> buffer@[j] == 0u8,
        decreases n - i,
    {
        buffer[i] = 0u8;
        i = i + 1;
    }
}

} // verus!
