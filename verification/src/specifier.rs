//! The `Specifier` trait: what a type must declare to live in a packed bit
//! field.

use crate::error::{InvalidBitPattern, OutOfBounds};
use vstd::prelude::*;

verus! {

/// A value type that can occupy a field of a packed bit container.
///
/// An implementation fixes three things: the number of bits the type occupies
/// inside a packed field, the unsigned carrier type wide enough to hold that
/// many bits, and the pair of conversions between logical values and carrier
/// bit patterns. All conversions are pure and stateless.
///
/// The spec functions give the mathematical model that the executable
/// methods are held to: `spec_encode` is the carrier pattern a value encodes
/// to, `spec_valid` says which carrier patterns are legal, and `spec_decode`
/// gives the value a legal pattern decodes to. Two laws tie them together:
/// encoding always yields a legal pattern that decodes back to the same value
/// ([`Specifier::lemma_decode_encode`]), and decoding a legal pattern and
/// re-encoding yields the same pattern ([`Specifier::lemma_encode_decode`]).
pub trait Specifier: Sized {
    /// The unsigned carrier type that holds the bit pattern during packing
    /// and unpacking. Its width in bits is at least `spec_bits()`.
    type Bytes;

    /// The logical value type converted to and from the carrier.
    type InOut;

    /// The declared bit width of the type inside a packed field.
    spec fn spec_bits() -> nat;

    /// The carrier bit pattern that encoding a value produces.
    spec fn spec_encode(input: Self::InOut) -> Self::Bytes;

    /// Whether a carrier value is a legal bit pattern for the logical type.
    spec fn spec_valid(bytes: Self::Bytes) -> bool;

    /// The logical value that a legal carrier pattern decodes to.
    spec fn spec_decode(bytes: Self::Bytes) -> Self::InOut;

    /// The declared bit width, as a runtime value.
    fn bits() -> (r: usize)
        ensures
            r == Self::spec_bits(),
    ;

    /// Converts a logical value to its carrier bit pattern.
    ///
    /// The error case exists for interface uniformity with narrower,
    /// externally defined widths; for every type of this crate the declared
    /// width equals the natural width and encoding always succeeds.
    fn into_bytes(input: Self::InOut) -> (r: Result<Self::Bytes, OutOfBounds>)
        ensures
            r == Ok::<Self::Bytes, OutOfBounds>(Self::spec_encode(input)),
    ;

    /// Converts a carrier bit pattern back to a logical value.
    ///
    /// The caller guarantees that `bytes` is already masked to the declared
    /// bit width. A pattern with no corresponding value is rejected with
    /// [`InvalidBitPattern`] carrying the offending carrier value.
    fn from_bytes(bytes: Self::Bytes) -> (r: Result<
        Self::InOut,
        InvalidBitPattern<Self::Bytes>,
    >)
        ensures
            Self::spec_valid(bytes) ==> r == Ok::<Self::InOut, InvalidBitPattern<Self::Bytes>>(
                Self::spec_decode(bytes),
            ),
            !Self::spec_valid(bytes) ==> r == Err::<Self::InOut, InvalidBitPattern<Self::Bytes>>(
                (InvalidBitPattern { invalid_bytes: bytes }),
            ),
    ;

    /// Round-trip identity: encoding any value yields a legal carrier
    /// pattern, and decoding that pattern yields the value back, bit-exact.
    proof fn lemma_decode_encode(input: Self::InOut)
        ensures
            Self::spec_valid(Self::spec_encode(input)),
            Self::spec_decode(Self::spec_encode(input)) == input,
    ;

    /// Carrier round trip: decoding any legal carrier pattern and re-encoding
    /// the result yields the same pattern.
    proof fn lemma_encode_decode(bytes: Self::Bytes)
        requires
            Self::spec_valid(bytes),
        ensures
            Self::spec_encode(Self::spec_decode(bytes)) == bytes,
    ;
}

/// Reports whether a carrier value is a legal bit pattern for `S`'s logical
/// type, that is, whether `S::from_bytes` would accept it.
pub fn is_valid_pattern<S: Specifier>(bytes: S::Bytes) -> (r: bool)
    ensures
        r == S::spec_valid(bytes),
{
    match S::from_bytes(bytes) {
        Ok(_) => true,
        Err(_) => false,
    }
}

} // verus!
