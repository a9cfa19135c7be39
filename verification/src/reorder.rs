//! The byte-reordering transform between the canonical big-endian-grouped
//! layout of a 128-bit identifier and the mixed-endian layout of the wire
//! column type.

use vstd::prelude::*;

verus! {

/// Where the byte at index `i` of a reordered buffer comes from: the 4-byte
/// group at indices 0..4 is reversed, the 2-byte groups at 4..6 and 6..8 are
/// each reversed, and indices 8..16 stay in place.
pub open spec fn reorder_index(i: int) -> int {
    if i == 0 {
        3
    } else if i == 1 {
        2
    } else if i == 2 {
        1
    } else if i == 3 {
        0
    } else if i == 4 {
        5
    } else if i == 5 {
        4
    } else if i == 6 {
        7
    } else if i == 7 {
        6
    } else {
        i
    }
}

/// The reorder transform on a byte sequence: byte `i` of the result is byte
/// `reorder_index(i)` of the input.
pub open spec fn reorder_seq(s: Seq<u8>) -> Seq<u8> {
    Seq::new(s.len(), |i: int| s[reorder_index(i)])
}

/// The transform is its own inverse: applied twice to any 16-byte sequence it
/// gives the sequence back. This is the invariant that makes the encode and
/// decode directions of the codec mutual inverses.
pub proof fn lemma_reorder_involutive(s: Seq<u8>)
    requires
        s.len() == 16,
    ensures
        reorder_seq(reorder_seq(s)) == s,
{
    assert(reorder_seq(reorder_seq(s)) =~= s);
}

/// Permute a 16-byte buffer in place between the canonical and the wire
/// layout: swap the pairs (0, 3), (1, 2), (4, 5) and (6, 7), and leave
/// indices 8..16 untouched.
pub fn reorder_bytes(bytes: &mut [u8; 16])
    ensures
        final(bytes)@ == reorder_seq(old(bytes)@),
{
    let b0 = bytes[0];
    bytes[0] = bytes[3];
    bytes[3] = b0;
    let b1 = bytes[1];
    bytes[1] = bytes[2];
    bytes[2] = b1;
    let b4 = bytes[4];
    bytes[4] = bytes[5];
    bytes[5] = b4;
    let b6 = bytes[6];
    bytes[6] = bytes[7];
    bytes[7] = b6;
    proof {
        assert(bytes@ =~= reorder_seq(old(bytes)@));
    }
}

} // verus!
