//! A borrowed reference and two boolean flags stored in the footprint of a
//! single machine word.
//!
//! For any type whose alignment is a multiple of 4, the two low bits of the
//! address of a reference are always zero, so they can carry two extra
//! boolean flags at no cost in space. [`RefWith2Flags`] packs the address of
//! a borrow together with two flags into one `usize` and decodes each
//! component back losslessly; the encoding and both decoders are verified.

pub mod ref_with_2_flags;
pub mod tag_word;

pub use crate::ref_with_2_flags::RefWith2Flags;
