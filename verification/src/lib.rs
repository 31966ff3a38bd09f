//! Conversions between primitive values and the minimal unsigned carriers
//! that hold their bit patterns inside a packed bit field.
//!
//! Each supported primitive type declares, through the [`Specifier`] trait,
//! the number of bits it occupies in a packed field, the unsigned carrier
//! type wide enough to hold that many bits, and a fallible conversion in each
//! direction. A packing engine that lays fields out in a byte buffer extracts
//! a carrier value (masked to the declared width), asks `from_bytes` for the
//! typed value, and conversely hands `into_bytes` a typed value to obtain the
//! carrier it then places into the buffer. This crate never touches buffers
//! itself: it only converts values and reports whether a carrier value is a
//! legal bit pattern for the logical type.

mod error;
mod impls;
mod laws;
mod specifier;

use vstd::prelude::*;

verus! {

pub use crate::error::InvalidBitPattern;
pub use crate::error::OutOfBounds;
pub use crate::laws::lemma_bool_rejects_other_bytes;
pub use crate::laws::lemma_i128_encode_twos_complement;
pub use crate::laws::lemma_i16_encode_twos_complement;
pub use crate::laws::lemma_i32_encode_twos_complement;
pub use crate::laws::lemma_i64_encode_twos_complement;
pub use crate::laws::lemma_i8_encode_twos_complement;
pub use crate::laws::lemma_u128_encode_identity;
pub use crate::laws::lemma_u16_encode_identity;
pub use crate::laws::lemma_u32_encode_identity;
pub use crate::laws::lemma_u64_encode_identity;
pub use crate::laws::lemma_u8_encode_identity;
pub use crate::specifier::Specifier;
pub use crate::specifier::is_valid_pattern;

} // verus!
