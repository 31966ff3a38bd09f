//! The two error kinds of the conversion contract.

use vstd::prelude::*;

verus! {

/// Returned by [`Specifier::into_bytes`](crate::Specifier::into_bytes) when a
/// logical value cannot be represented in the declared bit width.
///
/// No type in this crate ever produces it: every declared width here equals
/// the type's natural width, so encoding always succeeds. It stays in the
/// interface so that generic packing code is written once against a uniform
/// fallible signature, covering narrower, externally defined widths as well.
#[derive(Clone, Copy, Debug, PartialEq, Eq)]
pub struct OutOfBounds;

/// Returned by [`Specifier::from_bytes`](crate::Specifier::from_bytes) when a
/// carrier value corresponds to no value of the logical type.
///
/// Carries the offending carrier value for diagnostics. Among the types of
/// this crate only `bool` can produce it: its carrier is a full byte, but
/// only the patterns `0` and `1` are legal.
#[derive(Clone, Copy, Debug, PartialEq, Eq)]
pub struct InvalidBitPattern<Bytes> {
    /// The carrier value that matched no value of the logical type.
    pub invalid_bytes: Bytes,
}

} // verus!
