//! Laws that tie the per-type models together, beyond the round-trip laws
//! that every implementation proves through the trait itself
//! ([`Specifier::lemma_decode_encode`] and [`Specifier::lemma_encode_decode`]).

use crate::specifier::Specifier;
use vstd::prelude::*;

verus! {

/// Every byte other than `0` and `1` is an illegal carrier pattern for
/// `bool`: decoding it fails, and by the contract of
/// [`Specifier::from_bytes`] the error carries the offending byte.
pub proof fn lemma_bool_rejects_other_bytes(bytes: u8)
    requires
        bytes != 0,
        bytes != 1,
    ensures
        !<bool as Specifier>::spec_valid(bytes),
{
}

/// Encoding an `i8` is a width-preserving reinterpretation: the carrier's
/// numeric value is the input's two's-complement bit pattern, that is, the
/// input reduced modulo 2 to the 8th.
pub proof fn lemma_i8_encode_twos_complement(input: i8)
    ensures
        <i8 as Specifier>::spec_encode(input) == (input as int) % 0x100,
{
}

/// Encoding an `i16` is a width-preserving reinterpretation: the carrier's
/// numeric value is the input's two's-complement bit pattern, that is, the
/// input reduced modulo 2 to the 16th.
pub proof fn lemma_i16_encode_twos_complement(input: i16)
    ensures
        <i16 as Specifier>::spec_encode(input) == (input as int) % 0x1_0000,
{
}

/// Encoding an `i32` is a width-preserving reinterpretation: the carrier's
/// numeric value is the input's two's-complement bit pattern, that is, the
/// input reduced modulo 2 to the 32nd.
pub proof fn lemma_i32_encode_twos_complement(input: i32)
    ensures
        <i32 as Specifier>::spec_encode(input) == (input as int) % 0x1_0000_0000,
{
}

/// Encoding an `i64` is a width-preserving reinterpretation: the carrier's
/// numeric value is the input's two's-complement bit pattern, that is, the
/// input reduced modulo 2 to the 64th.
pub proof fn lemma_i64_encode_twos_complement(input: i64)
    ensures
        <i64 as Specifier>::spec_encode(input) == (input as int) % 0x1_0000_0000_0000_0000,
{
}

/// Encoding an `i128` is a width-preserving reinterpretation: the carrier's
/// numeric value is the input's two's-complement bit pattern, that is, the
/// input reduced modulo 2 to the 128th.
pub proof fn lemma_i128_encode_twos_complement(input: i128)
    ensures
        <i128 as Specifier>::spec_encode(input) == (input as int)
            % 0x1_0000_0000_0000_0000_0000_0000_0000_0000int,
{
}

/// Encoding a `u8` leaves its numeric value unchanged: the carrier is the
/// input itself, already its own bit pattern.
pub proof fn lemma_u8_encode_identity(input: u8)
    ensures
        <u8 as Specifier>::spec_encode(input) == input,
{
}

/// Encoding a `u16` leaves its numeric value unchanged: the carrier is the
/// input itself, already its own bit pattern.
pub proof fn lemma_u16_encode_identity(input: u16)
    ensures
        <u16 as Specifier>::spec_encode(input) == input,
{
}

/// Encoding a `u32` leaves its numeric value unchanged: the carrier is the
/// input itself, already its own bit pattern.
pub proof fn lemma_u32_encode_identity(input: u32)
    ensures
        <u32 as Specifier>::spec_encode(input) == input,
{
}

/// Encoding a `u64` leaves its numeric value unchanged: the carrier is the
/// input itself, already its own bit pattern.
pub proof fn lemma_u64_encode_identity(input: u64)
    ensures
        <u64 as Specifier>::spec_encode(input) == input,
{
}

/// Encoding a `u128` leaves its numeric value unchanged: the carrier is the
/// input itself, already its own bit pattern.
pub proof fn lemma_u128_encode_identity(input: u128)
    ensures
        <u128 as Specifier>::spec_encode(input) == input,
{
}

} // verus!
