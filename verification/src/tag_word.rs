//! The packed-word encoding.
//!
//! A word packs an address whose two low bits are zero together with two
//! boolean flags: flag A in bit 0, flag B in bit 1. Because the address
//! contributes nothing to the low two bits, OR-ing the flag bits in loses no
//! information, and masking them off recovers the address bit for bit.

use vstd::prelude::*;

verus! {

/// The word that packs `addr` with the two flags: flag A in bit 0, flag B in
/// bit 1, OR-ed into the (4-byte-aligned) address.
pub open spec fn spec_pack(addr: usize, flag_a: bool, flag_b: bool) -> usize {
    addr | (if flag_a {
        1usize
    } else {
        0usize
    }) | (if flag_b {
        2usize
    } else {
        0usize
    })
}

/// The address part of a packed word: the two tag bits masked off.
pub open spec fn spec_addr(word: usize) -> usize {
    word & !3usize
}

/// Flag A of a packed word, read from bit 0.
pub open spec fn spec_flag_a(word: usize) -> bool {
    word & 1 != 0
}

/// Flag B of a packed word, read from bit 1.
pub open spec fn spec_flag_b(word: usize) -> bool {
    word & 2 != 0
}

/// Round-trip law of the encoding: packing an address whose two low bits are
/// zero with any pair of flags loses nothing. Masking the tag bits off
/// recovers the address bit for bit, and each of the four flag combinations
/// decodes to exactly the pair that was encoded, with no interference between
/// the two flag bits or with the address bits.
pub proof fn lemma_pack_round_trip(addr: usize, flag_a: bool, flag_b: bool)
    requires
        addr % 4 == 0,
    ensures
        spec_addr(spec_pack(addr, flag_a, flag_b)) == addr,
        spec_flag_a(spec_pack(addr, flag_a, flag_b)) == flag_a,
        spec_flag_b(spec_pack(addr, flag_a, flag_b)) == flag_b,
{
    let fa: usize = if flag_a {
        1
    } else {
        0
    };
    let fb: usize = if flag_b {
        2
    } else {
        0
    };
    assert((addr | fa | fb) & !3usize == addr) by (bit_vector)
        requires
            addr % 4 == 0,
            fa == 0 || fa == 1,
            fb == 0 || fb == 2,
    ;
    assert(((addr | fa | fb) & 1 != 0) == (fa == 1)) by (bit_vector)
        requires
            addr % 4 == 0,
            fa == 0 || fa == 1,
            fb == 0 || fb == 2,
    ;
    assert(((addr | fa | fb) & 2 != 0) == (fb == 2)) by (bit_vector)
        requires
            addr % 4 == 0,
            fa == 0 || fa == 1,
            fb == 0 || fb == 2,
    ;
}

/// Encode an aligned address and two flags into one word.
pub(crate) fn pack_word(addr: usize, flag_a: bool, flag_b: bool) -> (w: usize)
    requires
        addr % 4 == 0,
    ensures
        w == spec_pack(addr, flag_a, flag_b),
        spec_addr(w) == addr,
        spec_flag_a(w) == flag_a,
        spec_flag_b(w) == flag_b,
{
    let fa: usize = if flag_a {
        1
    } else {
        0
    };
    let fb: usize = if flag_b {
        2
    } else {
        0
    };
    proof {
        lemma_pack_round_trip(addr, flag_a, flag_b);
    }
    addr | fa | fb
}

} // verus!
