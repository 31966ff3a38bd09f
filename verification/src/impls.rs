//! `Specifier` implementations for the supported primitive types.
//!
//! Booleans declare a width of 1 bit inside a byte-wide carrier, so only the
//! patterns `0` and `1` are legal and every other byte is rejected at decode
//! time. Every integer type declares its full native width and converts by a
//! width-preserving reinterpretation: the carrier's numeric value is the
//! two's-complement bit pattern of the input, so both conversions are total.

use crate::error::{InvalidBitPattern, OutOfBounds};
use crate::specifier::Specifier;
use vstd::prelude::*;

verus! {

impl Specifier for bool {
    type Bytes = u8;

    type InOut = bool;

    open spec fn spec_bits() -> nat {
        1
    }

    open spec fn spec_encode(input: bool) -> u8 {
        if input {
            1
        } else {
            0
        }
    }

    open spec fn spec_valid(bytes: u8) -> bool {
        bytes == 0 || bytes == 1
    }

    open spec fn spec_decode(bytes: u8) -> bool {
        bytes == 1
    }

    fn bits() -> usize {
        1
    }

    fn into_bytes(input: bool) -> Result<u8, OutOfBounds> {
        if input {
            Ok(1)
        } else {
            Ok(0)
        }
    }

    fn from_bytes(bytes: u8) -> Result<bool, InvalidBitPattern<u8>> {
        if bytes == 0 {
            Ok(false)
        } else if bytes == 1 {
            Ok(true)
        } else {
            Err(InvalidBitPattern { invalid_bytes: bytes })
        }
    }

    proof fn lemma_decode_encode(input: bool) {
    }

    proof fn lemma_encode_decode(bytes: u8) {
    }
}

impl Specifier for u8 {
    type Bytes = u8;

    type InOut = u8;

    open spec fn spec_bits() -> nat {
        8
    }

    open spec fn spec_encode(input: u8) -> u8 {
        input
    }

    open spec fn spec_valid(bytes: u8) -> bool {
        true
    }

    open spec fn spec_decode(bytes: u8) -> u8 {
        bytes
    }

    fn bits() -> usize {
        8
    }

    fn into_bytes(input: u8) -> Result<u8, OutOfBounds> {
        Ok(input)
    }

    fn from_bytes(bytes: u8) -> Result<u8, InvalidBitPattern<u8>> {
        Ok(bytes)
    }

    proof fn lemma_decode_encode(input: u8) {
    }

    proof fn lemma_encode_decode(bytes: u8) {
    }
}

impl Specifier for u16 {
    type Bytes = u16;

    type InOut = u16;

    open spec fn spec_bits() -> nat {
        16
    }

    open spec fn spec_encode(input: u16) -> u16 {
        input
    }

    open spec fn spec_valid(bytes: u16) -> bool {
        true
    }

    open spec fn spec_decode(bytes: u16) -> u16 {
        bytes
    }

    fn bits() -> usize {
        16
    }

    fn into_bytes(input: u16) -> Result<u16, OutOfBounds> {
        Ok(input)
    }

    fn from_bytes(bytes: u16) -> Result<u16, InvalidBitPattern<u16>> {
        Ok(bytes)
    }

    proof fn lemma_decode_encode(input: u16) {
    }

    proof fn lemma_encode_decode(bytes: u16) {
    }
}

impl Specifier for u32 {
    type Bytes = u32;

    type InOut = u32;

    open spec fn spec_bits() -> nat {
        32
    }

    open spec fn spec_encode(input: u32) -> u32 {
        input
    }

    open spec fn spec_valid(bytes: u32) -> bool {
        true
    }

    open spec fn spec_decode(bytes: u32) -> u32 {
        bytes
    }

    fn bits() -> usize {
        32
    }

    fn into_bytes(input: u32) -> Result<u32, OutOfBounds> {
        Ok(input)
    }

    fn from_bytes(bytes: u32) -> Result<u32, InvalidBitPattern<u32>> {
        Ok(bytes)
    }

    proof fn lemma_decode_encode(input: u32) {
    }

    proof fn lemma_encode_decode(bytes: u32) {
    }
}

impl Specifier for u64 {
    type Bytes = u64;

    type InOut = u64;

    open spec fn spec_bits() -> nat {
        64
    }

    open spec fn spec_encode(input: u64) -> u64 {
        input
    }

    open spec fn spec_valid(bytes: u64) -> bool {
        true
    }

    open spec fn spec_decode(bytes: u64) -> u64 {
        bytes
    }

    fn bits() -> usize {
        64
    }

    fn into_bytes(input: u64) -> Result<u64, OutOfBounds> {
        Ok(input)
    }

    fn from_bytes(bytes: u64) -> Result<u64, InvalidBitPattern<u64>> {
        Ok(bytes)
    }

    proof fn lemma_decode_encode(input: u64) {
    }

    proof fn lemma_encode_decode(bytes: u64) {
    }
}

impl Specifier for u128 {
    type Bytes = u128;

    type InOut = u128;

    open spec fn spec_bits() -> nat {
        128
    }

    open spec fn spec_encode(input: u128) -> u128 {
        input
    }

    open spec fn spec_valid(bytes: u128) -> bool {
        true
    }

    open spec fn spec_decode(bytes: u128) -> u128 {
        bytes
    }

    fn bits() -> usize {
        128
    }

    fn into_bytes(input: u128) -> Result<u128, OutOfBounds> {
        Ok(input)
    }

    fn from_bytes(bytes: u128) -> Result<u128, InvalidBitPattern<u128>> {
        Ok(bytes)
    }

    proof fn lemma_decode_encode(input: u128) {
    }

    proof fn lemma_encode_decode(bytes: u128) {
    }
}

impl Specifier for i8 {
    type Bytes = u8;

    type InOut = i8;

    open spec fn spec_bits() -> nat {
        8
    }

    open spec fn spec_encode(input: i8) -> u8 {
        if input >= 0 {
            input as u8
        } else {
            (input + 0x100) as u8
        }
    }

    open spec fn spec_valid(bytes: u8) -> bool {
        true
    }

    open spec fn spec_decode(bytes: u8) -> i8 {
        if bytes < 0x80 {
            bytes as i8
        } else {
            (bytes - 0x100) as i8
        }
    }

    fn bits() -> usize {
        8
    }

    fn into_bytes(input: i8) -> Result<u8, OutOfBounds> {
        if input >= 0 {
            Ok(input as u8)
        } else {
            Ok(((input as i16) + 0x100) as u8)
        }
    }

    fn from_bytes(bytes: u8) -> Result<i8, InvalidBitPattern<u8>> {
        if bytes < 0x80 {
            Ok(bytes as i8)
        } else {
            Ok(((bytes as i16) - 0x100) as i8)
        }
    }

    proof fn lemma_decode_encode(input: i8) {
    }

    proof fn lemma_encode_decode(bytes: u8) {
    }
}

impl Specifier for i16 {
    type Bytes = u16;

    type InOut = i16;

    open spec fn spec_bits() -> nat {
        16
    }

    open spec fn spec_encode(input: i16) -> u16 {
        if input >= 0 {
            input as u16
        } else {
            (input + 0x1_0000) as u16
        }
    }

    open spec fn spec_valid(bytes: u16) -> bool {
        true
    }

    open spec fn spec_decode(bytes: u16) -> i16 {
        if bytes < 0x8000 {
            bytes as i16
        } else {
            (bytes - 0x1_0000) as i16
        }
    }

    fn bits() -> usize {
        16
    }

    fn into_bytes(input: i16) -> Result<u16, OutOfBounds> {
        if input >= 0 {
            Ok(input as u16)
        } else {
            Ok(((input as i32) + 0x1_0000) as u16)
        }
    }

    fn from_bytes(bytes: u16) -> Result<i16, InvalidBitPattern<u16>> {
        if bytes < 0x8000 {
            Ok(bytes as i16)
        } else {
            Ok(((bytes as i32) - 0x1_0000) as i16)
        }
    }

    proof fn lemma_decode_encode(input: i16) {
    }

    proof fn lemma_encode_decode(bytes: u16) {
    }
}

impl Specifier for i32 {
    type Bytes = u32;

    type InOut = i32;

    open spec fn spec_bits() -> nat {
        32
    }

    open spec fn spec_encode(input: i32) -> u32 {
        if input >= 0 {
            input as u32
        } else {
            (input + 0x1_0000_0000) as u32
        }
    }

    open spec fn spec_valid(bytes: u32) -> bool {
        true
    }

    open spec fn spec_decode(bytes: u32) -> i32 {
        if bytes < 0x8000_0000 {
            bytes as i32
        } else {
            (bytes - 0x1_0000_0000) as i32
        }
    }

    fn bits() -> usize {
        32
    }

    fn into_bytes(input: i32) -> Result<u32, OutOfBounds> {
        if input >= 0 {
            Ok(input as u32)
        } else {
            Ok(((input as i64) + 0x1_0000_0000) as u32)
        }
    }

    fn from_bytes(bytes: u32) -> Result<i32, InvalidBitPattern<u32>> {
        if bytes < 0x8000_0000 {
            Ok(bytes as i32)
        } else {
            Ok(((bytes as i64) - 0x1_0000_0000) as i32)
        }
    }

    proof fn lemma_decode_encode(input: i32) {
    }

    proof fn lemma_encode_decode(bytes: u32) {
    }
}

impl Specifier for i64 {
    type Bytes = u64;

    type InOut = i64;

    open spec fn spec_bits() -> nat {
        64
    }

    open spec fn spec_encode(input: i64) -> u64 {
        if input >= 0 {
            input as u64
        } else {
            (input + 0x1_0000_0000_0000_0000) as u64
        }
    }

    open spec fn spec_valid(bytes: u64) -> bool {
        true
    }

    open spec fn spec_decode(bytes: u64) -> i64 {
        if bytes < 0x8000_0000_0000_0000 {
            bytes as i64
        } else {
            (bytes - 0x1_0000_0000_0000_0000) as i64
        }
    }

    fn bits() -> usize {
        64
    }

    fn into_bytes(input: i64) -> Result<u64, OutOfBounds> {
        if input >= 0 {
            Ok(input as u64)
        } else {
            Ok(((input as i128) + 0x1_0000_0000_0000_0000) as u64)
        }
    }

    fn from_bytes(bytes: u64) -> Result<i64, InvalidBitPattern<u64>> {
        if bytes < 0x8000_0000_0000_0000 {
            Ok(bytes as i64)
        } else {
            Ok(((bytes as i128) - 0x1_0000_0000_0000_0000) as i64)
        }
    }

    proof fn lemma_decode_encode(input: i64) {
    }

    proof fn lemma_encode_decode(bytes: u64) {
    }
}

impl Specifier for i128 {
    type Bytes = u128;

    type InOut = i128;

    open spec fn spec_bits() -> nat {
        128
    }

    open spec fn spec_encode(input: i128) -> u128 {
        if input >= 0 {
            input as u128
        } else {
            (input + 0x1_0000_0000_0000_0000_0000_0000_0000_0000) as u128
        }
    }

    open spec fn spec_valid(bytes: u128) -> bool {
        true
    }

    open spec fn spec_decode(bytes: u128) -> i128 {
        if bytes < 0x8000_0000_0000_0000_0000_0000_0000_0000 {
            bytes as i128
        } else {
            (bytes - 0x1_0000_0000_0000_0000_0000_0000_0000_0000) as i128
        }
    }

    fn bits() -> usize {
        128
    }

    fn into_bytes(input: i128) -> Result<u128, OutOfBounds> {
        if input >= 0 {
            Ok(input as u128)
        } else {
            // No wider signed type exists, so reach the pattern
            // input + 2^128 as u128::MAX - (-(input + 1)).
            let offset: i128 = -(input + 1);
            Ok(u128::MAX - (offset as u128))
        }
    }

    fn from_bytes(bytes: u128) -> Result<i128, InvalidBitPattern<u128>> {
        if bytes < 0x8000_0000_0000_0000_0000_0000_0000_0000 {
            Ok(bytes as i128)
        } else {
            // bytes - 2^128, computed without a wider type as
            // -(u128::MAX - bytes) - 1.
            let offset: u128 = u128::MAX - bytes;
            Ok(-(offset as i128) - 1)
        }
    }

    proof fn lemma_decode_encode(input: i128) {
    }

    proof fn lemma_encode_decode(bytes: u128) {
    }
}

} // verus!
