use bitfield_specifier::{InvalidBitPattern, Specifier};

#[test]
fn bool_encodes_false_to_zero_and_true_to_one() {
    assert_eq!(<bool as Specifier>::into_bytes(false), Ok(0u8));
    assert_eq!(<bool as Specifier>::into_bytes(true), Ok(1u8));
}

#[test]
fn bool_decodes_zero_and_one() {
    assert_eq!(<bool as Specifier>::from_bytes(0), Ok(false));
    assert_eq!(<bool as Specifier>::from_bytes(1), Ok(true));
}

#[test]
fn bool_rejects_every_other_byte() {
    for b in 2..=255u8 {
        assert_eq!(
            <bool as Specifier>::from_bytes(b),
            Err(InvalidBitPattern { invalid_bytes: b })
        );
    }
}

#[test]
fn bool_round_trips() {
    for v in [false, true] {
        let bytes = <bool as Specifier>::into_bytes(v).unwrap();
        assert_eq!(<bool as Specifier>::from_bytes(bytes), Ok(v));
    }
    for c in 0..=1u8 {
        let value = <bool as Specifier>::from_bytes(c).unwrap();
        assert_eq!(<bool as Specifier>::into_bytes(value), Ok(c));
    }
}

#[test]
fn unsigned_encode_is_identity() {
    assert_eq!(<u8 as Specifier>::into_bytes(0), Ok(0u8));
    assert_eq!(<u8 as Specifier>::into_bytes(u8::MAX), Ok(u8::MAX));
    assert_eq!(<u16 as Specifier>::into_bytes(0xBEEF), Ok(0xBEEFu16));
    assert_eq!(<u32 as Specifier>::into_bytes(0xDEAD_BEEF), Ok(0xDEAD_BEEFu32));
    assert_eq!(
        <u64 as Specifier>::into_bytes(0x0123_4567_89AB_CDEF),
        Ok(0x0123_4567_89AB_CDEFu64)
    );
    assert_eq!(<u128 as Specifier>::into_bytes(u128::MAX), Ok(u128::MAX));
}

#[test]
fn unsigned_round_trips_at_bounds() {
    for v in [0u8, 1, u8::MAX] {
        let bytes = <u8 as Specifier>::into_bytes(v).unwrap();
        assert_eq!(<u8 as Specifier>::from_bytes(bytes), Ok(v));
    }
    for v in [0u16, 1, u16::MAX] {
        let bytes = <u16 as Specifier>::into_bytes(v).unwrap();
        assert_eq!(<u16 as Specifier>::from_bytes(bytes), Ok(v));
    }
    for v in [0u32, 1, u32::MAX] {
        let bytes = <u32 as Specifier>::into_bytes(v).unwrap();
        assert_eq!(<u32 as Specifier>::from_bytes(bytes), Ok(v));
    }
    for v in [0u64, 1, u64::MAX] {
        let bytes = <u64 as Specifier>::into_bytes(v).unwrap();
        assert_eq!(<u64 as Specifier>::from_bytes(bytes), Ok(v));
    }
    for v in [0u128, 1, u128::MAX] {
        let bytes = <u128 as Specifier>::into_bytes(v).unwrap();
        assert_eq!(<u128 as Specifier>::from_bytes(bytes), Ok(v));
    }
}

#[test]
fn signed_round_trips_at_bounds() {
    for v in [i8::MIN, -1, 0, 1, i8::MAX] {
        let bytes = <i8 as Specifier>::into_bytes(v).unwrap();
        assert_eq!(<i8 as Specifier>::from_bytes(bytes), Ok(v));
    }
    for v in [i16::MIN, -1, 0, 1, i16::MAX] {
        let bytes = <i16 as Specifier>::into_bytes(v).unwrap();
        assert_eq!(<i16 as Specifier>::from_bytes(bytes), Ok(v));
    }
    for v in [i32::MIN, -1, 0, 1, i32::MAX] {
        let bytes = <i32 as Specifier>::into_bytes(v).unwrap();
        assert_eq!(<i32 as Specifier>::from_bytes(bytes), Ok(v));
    }
    for v in [i64::MIN, -1, 0, 1, i64::MAX] {
        let bytes = <i64 as Specifier>::into_bytes(v).unwrap();
        assert_eq!(<i64 as Specifier>::from_bytes(bytes), Ok(v));
    }
    for v in [i128::MIN, -1, 0, 1, i128::MAX] {
        let bytes = <i128 as Specifier>::into_bytes(v).unwrap();
        assert_eq!(<i128 as Specifier>::from_bytes(bytes), Ok(v));
    }
}

#[test]
fn signed_encoding_is_twos_complement() {
    assert_eq!(<i8 as Specifier>::into_bytes(-1), Ok(0xFFu8));
    assert_eq!(<i8 as Specifier>::into_bytes(i8::MIN), Ok(0x80u8));
    assert_eq!(<i8 as Specifier>::into_bytes(i8::MAX), Ok(0x7Fu8));
    assert_eq!(<i16 as Specifier>::into_bytes(-1), Ok(0xFFFFu16));
    assert_eq!(<i16 as Specifier>::into_bytes(i16::MIN), Ok(0x8000u16));
    assert_eq!(<i16 as Specifier>::into_bytes(-2), Ok(0xFFFEu16));
    assert_eq!(<i32 as Specifier>::into_bytes(-1), Ok(0xFFFF_FFFFu32));
    assert_eq!(<i32 as Specifier>::into_bytes(i32::MIN), Ok(0x8000_0000u32));
    assert_eq!(<i64 as Specifier>::into_bytes(-1), Ok(u64::MAX));
    assert_eq!(
        <i64 as Specifier>::into_bytes(i64::MIN),
        Ok(0x8000_0000_0000_0000u64)
    );
    assert_eq!(<i128 as Specifier>::into_bytes(-1), Ok(u128::MAX));
    assert_eq!(
        <i128 as Specifier>::into_bytes(i128::MIN),
        Ok(0x8000_0000_0000_0000_0000_0000_0000_0000u128)
    );
}

#[test]
fn signed_decoding_reads_twos_complement() {
    assert_eq!(<i8 as Specifier>::from_bytes(0xFF), Ok(-1i8));
    assert_eq!(<i8 as Specifier>::from_bytes(0x80), Ok(i8::MIN));
    assert_eq!(<i8 as Specifier>::from_bytes(0x7F), Ok(i8::MAX));
    assert_eq!(<i16 as Specifier>::from_bytes(0xFFFF), Ok(-1i16));
    assert_eq!(<i32 as Specifier>::from_bytes(0x8000_0000), Ok(i32::MIN));
    assert_eq!(<i64 as Specifier>::from_bytes(u64::MAX), Ok(-1i64));
    assert_eq!(<i128 as Specifier>::from_bytes(u128::MAX), Ok(-1i128));
}

#[test]
fn u16_round_trips_exhaustively() {
    for v in 0..=u16::MAX {
        let bytes = <u16 as Specifier>::into_bytes(v).unwrap();
        assert_eq!(<u16 as Specifier>::from_bytes(bytes), Ok(v));
    }
}

#[test]
fn i16_carrier_round_trips_exhaustively() {
    for c in 0..=u16::MAX {
        let value = <i16 as Specifier>::from_bytes(c).unwrap();
        assert_eq!(<i16 as Specifier>::into_bytes(value), Ok(c));
    }
}

#[test]
fn end_to_end_example() {
    assert_eq!(<bool as Specifier>::into_bytes(true), Ok(1u8));
    assert_eq!(<bool as Specifier>::from_bytes(1), Ok(true));
    assert_eq!(
        <bool as Specifier>::from_bytes(2),
        Err(InvalidBitPattern { invalid_bytes: 2u8 })
    );
    assert_eq!(<i8 as Specifier>::into_bytes(-1), Ok(255u8));
    assert_eq!(<i8 as Specifier>::from_bytes(255), Ok(-1i8));
}
