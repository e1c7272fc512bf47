//! A borrowed reference and two boolean flags in one machine word.
//!
//! `RefWith2Flags` carries a borrow of some `T` whose alignment is a multiple
//! of 4 and packs the borrow's address together with two boolean flags into
//! the single word `ptr_and_bits`. The address-to-integer step is the one
//! trusted ingredient (Rust guarantees a reference is aligned for its type);
//! everything on top of it — that the packing corrupts neither the address
//! nor either flag, and that each accessor decodes exactly what was encoded —
//! is verified. The borrow itself is carried alongside the word so that the
//! accessor handing it back stays within safe code: turning a bare address
//! back into a reference is not something verified code can justify.

use vstd::prelude::*;

verus! {

use crate::tag_word::{spec_pack, spec_addr, spec_flag_a, spec_flag_b, pack_word};
use vstd::layout::align_of;
use vstd::layout::layout_for_type_is_valid;
use vstd::arithmetic::div_mod::{lemma_fundamental_div_mod, lemma_mod_mod};

/// A reference to a `T` with two boolean flags, all three packed into the
/// word `ptr_and_bits`: the address of the referent with flag A OR-ed into
/// bit 0 and flag B OR-ed into bit 1. Requires `align_of::<T>()` to be a
/// multiple of 4, which keeps those two bits of the address free.
pub struct RefWith2Flags<'a, T> {
    ptr_and_bits: usize,
    target: &'a T,
}

impl<'a, T> RefWith2Flags<'a, T> {
    /// The packed word.
    pub closed spec fn word(self) -> usize {
        self.ptr_and_bits
    }

    /// The borrow this value carries.
    pub closed spec fn target(self) -> &'a T {
        self.target
    }

    /// Flag A, as stored in bit 0 of the packed word.
    pub closed spec fn flag_a(self) -> bool {
        spec_flag_a(self.ptr_and_bits)
    }

    /// Flag B, as stored in bit 1 of the packed word.
    pub closed spec fn flag_b(self) -> bool {
        spec_flag_b(self.ptr_and_bits)
    }

    /// The packed word decodes losslessly: its masked address part is
    /// 4-byte-aligned, and re-packing that address with the two decoded flags
    /// gives the word back. Every constructed value satisfies this.
    #[verifier::type_invariant]
    spec fn wf(self) -> bool {
        &&& spec_addr(self.ptr_and_bits) % 4 == 0
        &&& self.ptr_and_bits == spec_pack(
            spec_addr(self.ptr_and_bits),
            self.flag_a(),
            self.flag_b(),
        )
    }

    /// Pack a borrow of an at-least-4-byte-aligned `T` with two flags.
    ///
    /// The caller must know the alignment of `T` to be a multiple of 4; for a
    /// runtime-checked entry point see [`Self::try_new`].
    pub fn new(ptr: &'a T, flag_a: bool, flag_b: bool) -> (r: Self)
        requires
            align_of::<T>() % 4 == 0,
        ensures
            r.flag_a() == flag_a,
            r.flag_b() == flag_b,
            r.target() == ptr,
            r.word() == spec_pack(spec_addr(r.word()), flag_a, flag_b),
            spec_addr(r.word()) % 4 == 0,
    {
        layout_for_type_is_valid::<T>();
        let a: usize = address_of(ptr);
        proof {
            lemma_aligned_addr_mod_4(a, align_of::<T>());
        }
        let word: usize = pack_word(a, flag_a, flag_b);
        RefWith2Flags { ptr_and_bits: word, target: ptr }
    }

    /// Pack a borrow with two flags, checking the alignment of `T` at
    /// runtime: `Some` exactly when `align_of::<T>()` is a multiple of 4,
    /// `None` otherwise — a misaligned type is rejected every time, never
    /// packed with silently corrupted bits.
    pub fn try_new(ptr: &'a T, flag_a: bool, flag_b: bool) -> (r: Option<Self>)
        ensures
            r is Some <==> align_of::<T>() % 4 == 0,
            r matches Some(t) ==> t.flag_a() == flag_a && t.flag_b() == flag_b && t.target()
                == ptr,
            r matches Some(t) ==> t.word() == spec_pack(spec_addr(t.word()), flag_a, flag_b)
                && spec_addr(t.word()) % 4 == 0,
    {
        if core::mem::align_of::<T>() % 4 == 0 {
            Some(Self::new(ptr, flag_a, flag_b))
        } else {
            None
        }
    }

    /// The borrow that was packed in, handed back as it is: the same
    /// storage, not a copy.
    pub fn get_ref(&self) -> (r: &'a T)
        ensures
            r == self.target(),
    {
        self.target
    }

    /// Flag A, read from bit 0 of the packed word.
    pub fn get_flag_a(&self) -> (b: bool)
        ensures
            b == self.flag_a(),
    {
        self.ptr_and_bits & 1 != 0
    }

    /// Flag B, read from bit 1 of the packed word.
    pub fn get_flag_b(&self) -> (b: bool)
        ensures
            b == self.flag_b(),
    {
        self.ptr_and_bits & 2 != 0
    }
}

/// Relies on `core::ptr::from_ref` and the pointer-to-integer cast: the
/// address of a Rust reference is always aligned for the referent's type, so
/// it is a multiple of `align_of::<T>()`.
#[verifier::external_body]
fn address_of<T>(r: &T) -> (a: usize)
    ensures
        a as nat % align_of::<T>() == 0,
{
    core::ptr::from_ref(r) as usize
}

/// An address that is a multiple of some alignment which is itself a positive
/// multiple of 4 is a multiple of 4.
proof fn lemma_aligned_addr_mod_4(a: usize, align: nat)
    requires
        align > 0,
        align % 4 == 0,
        a as nat % align == 0,
    ensures
        a % 4 == 0,
{
    let ai: int = a as int;
    let al: int = align as int;
    lemma_fundamental_div_mod(al, 4);
    assert(al == 4 * (al / 4));
    assert(al / 4 > 0);
    lemma_mod_mod(ai, 4, al / 4);
}

} // verus!
