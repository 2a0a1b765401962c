//! Small helpers on bytes.

use vstd::prelude::*;

verus! {

/// The two bytes of a 16-bit value, least significant byte first.
pub open spec fn le16(value: u16) -> Seq<u8> {
    seq![(value % 256) as u8, (value / 256) as u8]
}

/// The 16-bit value that two bytes spell, least significant byte first.
pub open spec fn le16_value(low: u8, high: u8) -> u16 {
    (low + high * 256) as u16
}

/// A 16-bit value and its two bytes stand for each other.
pub proof fn lemma_le16_round_trip(value: u16, low: u8, high: u8)
    ensures
        le16_value(le16(value)[0], le16(value)[1]) == value,
        le16(le16_value(low, high)) == seq![low, high],
{
    assert(le16(le16_value(low, high)) =~= seq![low, high]);
}

/// `count` zeros.
pub open spec fn zeros(count: nat) -> Seq<u8> {
    Seq::new(count, |i: int| 0u8)
}

/// Appends `bytes` to `buffer`.
pub fn append(buffer: &mut Vec<u8>, bytes: &[u8])
    ensures
        final(buffer)@ == old(buffer)@ + bytes@,
{
    let ghost before = buffer@;
    let mut i: usize = 0;
    while i < bytes.len()
        invariant
            i <= bytes.len(),
            buffer@ == before + bytes@.take(i as int),
        decreases bytes.len() - i,
    {
        buffer.push(bytes[i]);
        proof {
            assert(bytes@.take(i + 1) =~= bytes@.take(i as int).push(bytes@[i as int]));
            assert(buffer@ =~= before + bytes@.take(i + 1));
        }
        i = i + 1;
    }
    proof {
        assert(bytes@.take(bytes@.len() as int) =~= bytes@);
    }
}

/// Appends `count` zeros to `buffer`.
pub fn append_zeros(buffer: &mut Vec<u8>, count: usize)
    ensures
        final(buffer)@ == old(buffer)@ + zeros(count as nat),
{
    let ghost before = buffer@;
    let mut i: usize = 0;
    while i < count
        invariant
            i <= count,
            buffer@ == before + zeros(i as nat),
        decreases count - i,
    {
        buffer.push(0u8);
        proof {
            assert(buffer@ =~= before + zeros((i + 1) as nat));
        }
        i = i + 1;
    }
}

/// Whether two slices hold the same bytes.
pub fn same_bytes(left: &[u8], right: &[u8]) -> (same: bool)
    ensures
        same == (left@ == right@),
{
    if left.len() != right.len() {
        return false;
    }
    let mut i: usize = 0;
    while i < left.len()
        invariant
            i <= left.len(),
            left.len() == right.len(),
            forall|k: int| 0 <= k < i ==> left@[k] == right@[k],
        decreases left.len() - i,
    {
        if left[i] != right[i] {
            return false;
        }
        i = i + 1;
    }
    assert(left@ =~= right@);
    true
}

} // verus!
