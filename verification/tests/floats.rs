use pgtypes::builtin::PgBuiltinType;
use pgtypes::catalog::LocalPgCatalog;
use pgtypes::codec::{Encode, IsNull, PgHasArrayType, Type};
use pgtypes::error::DecodeError;
use pgtypes::type_info::{LazyPgTypeInfo, PgTypeRef};
use pgtypes::types::float::{Float4Bits, Float8Bits};
use pgtypes::value::{PgValueFormat, PgValueRef};
use pgtypes::PgArgumentBuffer;

fn bits32(bytes: Option<&[u8]>, format: PgValueFormat) -> Result<Float4Bits, DecodeError> {
    let catalog = LocalPgCatalog::new();
    let type_info = PgBuiltinType::Float4.type_info();
    Float4Bits::decode_binary(PgValueRef { value: bytes, type_info: &type_info, format, catalog: &catalog })
}

fn bits64(bytes: Option<&[u8]>, format: PgValueFormat) -> Result<Float8Bits, DecodeError> {
    let catalog = LocalPgCatalog::new();
    let type_info = PgBuiltinType::Float8.type_info();
    Float8Bits::decode_binary(PgValueRef { value: bytes, type_info: &type_info, format, catalog: &catalog })
}

fn lazy_oid(info: LazyPgTypeInfo) -> u32 {
    match info {
        LazyPgTypeInfo::Ref(PgTypeRef::Oid(oid)) => oid.0,
        other => panic!("not a reference by identifier: {:?}", other),
    }
}

#[test]
fn f32_bits_are_big_endian() {
    let mut buf = PgArgumentBuffer::new();
    assert_eq!(Float4Bits(1.0f32.to_bits()).encode_by_ref(&mut buf), IsNull::No);
    assert_eq!(buf.as_slice(), &[0x3f, 0x80, 0, 0]);
    assert_eq!(buf.as_slice(), &1.0f32.to_be_bytes());
    assert_eq!(bits32(Some(&[0x3f, 0x80, 0, 0]), PgValueFormat::Binary), Ok(Float4Bits(0x3f80_0000)));
    assert_eq!(bits32(Some(&[0xc0, 0x49, 0x0f, 0xdb, 0xff]), PgValueFormat::Binary), Ok(Float4Bits(0xc049_0fdb)));
}

#[test]
fn f64_bits_are_big_endian() {
    let mut buf = PgArgumentBuffer::new();
    assert_eq!(Float8Bits((-2.5f64).to_bits()).encode_by_ref(&mut buf), IsNull::No);
    assert_eq!(buf.as_slice(), &[0xc0, 0x04, 0, 0, 0, 0, 0, 0]);
    assert_eq!(buf.as_slice(), &(-2.5f64).to_be_bytes());
    assert_eq!(
        bits64(Some(&[0xc0, 0x04, 0, 0, 0, 0, 0, 0]), PgValueFormat::Binary),
        Ok(Float8Bits(0xc004_0000_0000_0000))
    );
}

#[test]
fn f32_round_trip_bit_for_bit() {
    let values: [f32; 10] = [
        0.0,
        -0.0,
        1.5,
        -1.5,
        f32::MIN,
        f32::MAX,
        f32::MIN_POSITIVE,
        f32::INFINITY,
        f32::NEG_INFINITY,
        f32::NAN,
    ];
    for v in values {
        let mut buf = PgArgumentBuffer::new();
        Float4Bits(v.to_bits()).encode_by_ref(&mut buf);
        let back = bits32(Some(buf.as_slice()), PgValueFormat::Binary).unwrap();
        assert_eq!(back.0, v.to_bits());
        assert_eq!(f32::from_bits(back.0).to_bits(), v.to_bits());
    }
}

#[test]
fn f64_round_trip_bit_for_bit() {
    let values: [f64; 11] = [
        0.0,
        -0.0,
        1.5,
        -1.5,
        f64::MIN,
        f64::MAX,
        f64::MIN_POSITIVE,
        f64::INFINITY,
        f64::NEG_INFINITY,
        f64::NAN,
        f64::from_bits(0x7ff8_0000_dead_beef),
    ];
    for v in values {
        let mut buf = PgArgumentBuffer::new();
        Float8Bits(v.to_bits()).encode_by_ref(&mut buf);
        assert_eq!(buf.len(), 8);
        let back = bits64(Some(buf.as_slice()), PgValueFormat::Binary).unwrap();
        assert_eq!(back.0, v.to_bits());
        assert!(f64::from_bits(back.0).is_nan() == v.is_nan());
        assert!(f64::from_bits(back.0).is_sign_negative() == v.is_sign_negative());
    }
}

#[test]
fn float_bits_errors() {
    assert_eq!(bits32(Some(&[1, 2, 3]), PgValueFormat::Binary), Err(DecodeError::UnexpectedLength));
    assert_eq!(bits64(Some(&[1, 2, 3, 4, 5, 6, 7]), PgValueFormat::Binary), Err(DecodeError::UnexpectedLength));
    assert_eq!(bits32(None, PgValueFormat::Binary), Err(DecodeError::UnexpectedNull));
    assert_eq!(bits64(None, PgValueFormat::Binary), Err(DecodeError::UnexpectedNull));
    assert_eq!(bits32(Some(b"1.5"), PgValueFormat::Text), Err(DecodeError::TextHasNoBits));
    assert_eq!(bits64(Some(b"1.5"), PgValueFormat::Text), Err(DecodeError::TextHasNoBits));
    assert_eq!(bits64(None, PgValueFormat::Text), Err(DecodeError::TextHasNoBits));
}

#[test]
fn float_types_name_their_server_type() {
    assert_eq!(lazy_oid(<Float4Bits as Type>::type_info()), 700);
    assert_eq!(lazy_oid(<Float8Bits as Type>::type_info()), 701);
    assert_eq!(lazy_oid(<Float4Bits as PgHasArrayType>::array_type_info()), 1021);
    assert_eq!(lazy_oid(<Float8Bits as PgHasArrayType>::array_type_info()), 1022);
    assert!(<Float4Bits as Type>::compatible(&PgBuiltinType::Float4.type_info()));
    assert!(!<Float4Bits as Type>::compatible(&PgBuiltinType::Float8.type_info()));
    assert!(<Float8Bits as Type>::compatible(&PgBuiltinType::Float8.type_info()));
    assert!(<Float4Bits as PgHasArrayType>::array_compatible(&PgBuiltinType::Float4Array.type_info()));
    assert!(<Float8Bits as PgHasArrayType>::array_compatible(&PgBuiltinType::Float8Array.type_info()));
    assert!(!<Float8Bits as PgHasArrayType>::array_compatible(&PgBuiltinType::Float8.type_info()));
}
