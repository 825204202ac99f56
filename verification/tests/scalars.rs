use pgtypes::builtin::PgBuiltinType;
use pgtypes::catalog::LocalPgCatalog;
use pgtypes::codec::{Decode, Encode, IsNull, PgHasArrayType, Type};
use pgtypes::error::{DecodeError, HexError};
use pgtypes::type_info::{LazyPgTypeInfo, Oid, PgTypeInfo, PgTypeKind, PgTypeRef};
use pgtypes::types::json::Json;
use pgtypes::types::option::Nullable;
use pgtypes::value::{PgValueFormat, PgValueRef};
use pgtypes::PgArgumentBuffer;

fn decode_as<T: Decode>(
    bytes: Option<&[u8]>,
    format: PgValueFormat,
    builtin: PgBuiltinType,
) -> Result<T, DecodeError> {
    let catalog = LocalPgCatalog::new();
    let type_info = builtin.type_info();
    T::decode(PgValueRef { value: bytes, type_info: &type_info, format, catalog: &catalog })
}

fn encoded<T: Encode>(value: &T) -> Vec<u8> {
    let mut buf = PgArgumentBuffer::new();
    assert_eq!(value.encode_by_ref(&mut buf), IsNull::No);
    buf.as_slice().to_vec()
}

fn lazy_oid(info: LazyPgTypeInfo) -> u32 {
    match info {
        LazyPgTypeInfo::Ref(PgTypeRef::Oid(oid)) => oid.0,
        other => panic!("not a reference by identifier: {:?}", other),
    }
}

#[test]
fn bool_is_one_byte_in_binary() {
    assert_eq!(encoded(&true), vec![1]);
    assert_eq!(encoded(&false), vec![0]);
    assert_eq!(decode_as::<bool>(Some(&[1]), PgValueFormat::Binary, PgBuiltinType::Bool), Ok(true));
    assert_eq!(decode_as::<bool>(Some(&[0]), PgValueFormat::Binary, PgBuiltinType::Bool), Ok(false));
    assert_eq!(decode_as::<bool>(Some(&[2, 0]), PgValueFormat::Binary, PgBuiltinType::Bool), Ok(true));
}

#[test]
fn bool_is_t_or_f_in_text() {
    assert_eq!(decode_as::<bool>(Some(b"t"), PgValueFormat::Text, PgBuiltinType::Bool), Ok(true));
    assert_eq!(decode_as::<bool>(Some(b"f"), PgValueFormat::Text, PgBuiltinType::Bool), Ok(false));
    assert_eq!(
        decode_as::<bool>(Some(b"true"), PgValueFormat::Text, PgBuiltinType::Bool),
        Err(DecodeError::InvalidBool)
    );
    assert_eq!(
        decode_as::<bool>(Some(b""), PgValueFormat::Text, PgBuiltinType::Bool),
        Err(DecodeError::InvalidBool)
    );
}

#[test]
fn bool_errors() {
    assert_eq!(
        decode_as::<bool>(Some(&[]), PgValueFormat::Binary, PgBuiltinType::Bool),
        Err(DecodeError::UnexpectedLength)
    );
    assert_eq!(
        decode_as::<bool>(None, PgValueFormat::Binary, PgBuiltinType::Bool),
        Err(DecodeError::UnexpectedNull)
    );
    assert_eq!(
        decode_as::<bool>(None, PgValueFormat::Text, PgBuiltinType::Bool),
        Err(DecodeError::UnexpectedNull)
    );
    assert_eq!(
        decode_as::<bool>(Some(&[0xff, 0xfe]), PgValueFormat::Text, PgBuiltinType::Bool),
        Err(DecodeError::InvalidUtf8)
    );
}

#[test]
fn bool_round_trip() {
    for v in [true, false] {
        let bytes = encoded(&v);
        assert_eq!(decode_as::<bool>(Some(&bytes), PgValueFormat::Binary, PgBuiltinType::Bool), Ok(v));
    }
}

#[test]
fn integers_are_big_endian() {
    assert_eq!(encoded(&0x1234i16), vec![0x12, 0x34]);
    assert_eq!(encoded(&-2i16), vec![0xff, 0xfe]);
    assert_eq!(encoded(&0x1234_5678i32), vec![0x12, 0x34, 0x56, 0x78]);
    assert_eq!(encoded(&-1i32), vec![0xff, 0xff, 0xff, 0xff]);
    assert_eq!(
        encoded(&0x0102_0304_0506_0708i64),
        vec![0x01, 0x02, 0x03, 0x04, 0x05, 0x06, 0x07, 0x08]
    );
    assert_eq!(encoded(&i64::MIN), vec![0x80, 0, 0, 0, 0, 0, 0, 0]);
    assert_eq!(encoded(&Oid(0xdead_beef)), vec![0xde, 0xad, 0xbe, 0xef]);
    assert_eq!(encoded(&-1i8), vec![0xff]);
    assert_eq!(encoded(&0x41i8), vec![0x41]);
}

#[test]
fn integers_are_read_big_endian() {
    assert_eq!(
        decode_as::<i16>(Some(&[0x12, 0x34]), PgValueFormat::Binary, PgBuiltinType::Int2),
        Ok(0x1234)
    );
    assert_eq!(
        decode_as::<i16>(Some(&[0xff, 0xfe]), PgValueFormat::Binary, PgBuiltinType::Int2),
        Ok(-2)
    );
    assert_eq!(
        decode_as::<i32>(Some(&[0x12, 0x34, 0x56, 0x78]), PgValueFormat::Binary, PgBuiltinType::Int4),
        Ok(0x1234_5678)
    );
    assert_eq!(
        decode_as::<i64>(
            Some(&[0x80, 0, 0, 0, 0, 0, 0, 1]),
            PgValueFormat::Binary,
            PgBuiltinType::Int8
        ),
        Ok(i64::MIN + 1)
    );
    // bytes past the width of the type are not looked at
    assert_eq!(
        decode_as::<i16>(Some(&[0x00, 0x01, 0x7f]), PgValueFormat::Binary, PgBuiltinType::Int2),
        Ok(1)
    );
}

#[test]
fn i16_round_trip_at_the_boundaries() {
    for v in [0i16, 1, -1, 255, 256, -256, 32767, -32767, -32768] {
        let bytes = encoded(&v);
        assert_eq!(bytes.len(), 2);
        assert_eq!(decode_as::<i16>(Some(&bytes), PgValueFormat::Binary, PgBuiltinType::Int2), Ok(v));
    }
}

#[test]
fn i32_round_trip_at_the_boundaries() {
    for v in [0i32, 1, -1, 65535, 65536, i32::MAX, i32::MIN, i32::MIN + 1] {
        let bytes = encoded(&v);
        assert_eq!(bytes.len(), 4);
        assert_eq!(decode_as::<i32>(Some(&bytes), PgValueFormat::Binary, PgBuiltinType::Int4), Ok(v));
    }
}

#[test]
fn i64_round_trip_at_the_boundaries() {
    for v in [0i64, 1, -1, 1 << 32, -(1 << 32), i64::MAX, i64::MIN, i64::MIN + 1] {
        let bytes = encoded(&v);
        assert_eq!(bytes.len(), 8);
        assert_eq!(decode_as::<i64>(Some(&bytes), PgValueFormat::Binary, PgBuiltinType::Int8), Ok(v));
    }
}

#[test]
fn i8_round_trip_at_the_boundaries() {
    for v in [0i8, 1, -1, 127, -127, -128] {
        let bytes = encoded(&v);
        assert_eq!(bytes.len(), 1);
        assert_eq!(decode_as::<i8>(Some(&bytes), PgValueFormat::Binary, PgBuiltinType::Char), Ok(v));
    }
}

#[test]
fn i8_without_bytes_is_zero() {
    assert_eq!(decode_as::<i8>(Some(&[]), PgValueFormat::Text, PgBuiltinType::Char), Ok(0));
    assert_eq!(decode_as::<i8>(Some(&[]), PgValueFormat::Binary, PgBuiltinType::Char), Ok(0));
    assert_eq!(decode_as::<i8>(Some(b"A"), PgValueFormat::Text, PgBuiltinType::Char), Ok(65));
    assert_eq!(decode_as::<i8>(Some(&[0x80]), PgValueFormat::Binary, PgBuiltinType::Char), Ok(-128));
    assert_eq!(
        decode_as::<i8>(None, PgValueFormat::Binary, PgBuiltinType::Char),
        Err(DecodeError::UnexpectedNull)
    );
}

#[test]
fn integers_too_short_in_binary() {
    assert_eq!(
        decode_as::<i16>(Some(&[1]), PgValueFormat::Binary, PgBuiltinType::Int2),
        Err(DecodeError::UnexpectedLength)
    );
    assert_eq!(
        decode_as::<i32>(Some(&[1, 2, 3]), PgValueFormat::Binary, PgBuiltinType::Int4),
        Err(DecodeError::UnexpectedLength)
    );
    assert_eq!(
        decode_as::<i64>(Some(&[1, 2, 3, 4, 5, 6, 7]), PgValueFormat::Binary, PgBuiltinType::Int8),
        Err(DecodeError::UnexpectedLength)
    );
    assert_eq!(
        decode_as::<i64>(None, PgValueFormat::Binary, PgBuiltinType::Int8),
        Err(DecodeError::UnexpectedNull)
    );
}

#[test]
fn integers_in_text() {
    assert_eq!(decode_as::<i16>(Some(b"123"), PgValueFormat::Text, PgBuiltinType::Int2), Ok(123));
    assert_eq!(decode_as::<i16>(Some(b"-123"), PgValueFormat::Text, PgBuiltinType::Int2), Ok(-123));
    assert_eq!(decode_as::<i16>(Some(b"+7"), PgValueFormat::Text, PgBuiltinType::Int2), Ok(7));
    assert_eq!(decode_as::<i16>(Some(b"007"), PgValueFormat::Text, PgBuiltinType::Int2), Ok(7));
    assert_eq!(decode_as::<i16>(Some(b"-0"), PgValueFormat::Text, PgBuiltinType::Int2), Ok(0));
    assert_eq!(decode_as::<i16>(Some(b"32767"), PgValueFormat::Text, PgBuiltinType::Int2), Ok(32767));
    assert_eq!(decode_as::<i16>(Some(b"-32768"), PgValueFormat::Text, PgBuiltinType::Int2), Ok(-32768));
    assert_eq!(
        decode_as::<i32>(Some(b"2147483647"), PgValueFormat::Text, PgBuiltinType::Int4),
        Ok(i32::MAX)
    );
    assert_eq!(
        decode_as::<i32>(Some(b"-2147483648"), PgValueFormat::Text, PgBuiltinType::Int4),
        Ok(i32::MIN)
    );
    assert_eq!(
        decode_as::<i64>(Some(b"9223372036854775807"), PgValueFormat::Text, PgBuiltinType::Int8),
        Ok(i64::MAX)
    );
    assert_eq!(
        decode_as::<i64>(Some(b"-9223372036854775808"), PgValueFormat::Text, PgBuiltinType::Int8),
        Ok(i64::MIN)
    );
}

#[test]
fn integers_in_text_agree_with_the_standard_parser() {
    let texts: [&str; 14] = [
        "0", "-1", "+1", "", "-", "+", "1 ", " 1", "1_0", "0x10", "99999999999999999999999",
        "-99999999999999999999999", "00000000000000000000000000012", "12.5",
    ];
    for text in texts {
        assert_eq!(
            decode_as::<i64>(Some(text.as_bytes()), PgValueFormat::Text, PgBuiltinType::Int8).ok(),
            text.parse::<i64>().ok()
        );
        assert_eq!(
            decode_as::<i16>(Some(text.as_bytes()), PgValueFormat::Text, PgBuiltinType::Int2).ok(),
            text.parse::<i16>().ok()
        );
    }
}

#[test]
fn integers_out_of_range_in_text() {
    assert_eq!(
        decode_as::<i16>(Some(b"32768"), PgValueFormat::Text, PgBuiltinType::Int2),
        Err(DecodeError::InvalidNumber)
    );
    assert_eq!(
        decode_as::<i16>(Some(b"-32769"), PgValueFormat::Text, PgBuiltinType::Int2),
        Err(DecodeError::InvalidNumber)
    );
    assert_eq!(
        decode_as::<i32>(Some(b"2147483648"), PgValueFormat::Text, PgBuiltinType::Int4),
        Err(DecodeError::InvalidNumber)
    );
    assert_eq!(
        decode_as::<i64>(Some(b"9223372036854775808"), PgValueFormat::Text, PgBuiltinType::Int8),
        Err(DecodeError::InvalidNumber)
    );
    assert_eq!(
        decode_as::<i64>(Some(b"12a"), PgValueFormat::Text, PgBuiltinType::Int8),
        Err(DecodeError::InvalidNumber)
    );
    assert_eq!(
        decode_as::<i64>(Some(&[0x31, 0xff]), PgValueFormat::Text, PgBuiltinType::Int8),
        Err(DecodeError::InvalidUtf8)
    );
}

#[test]
fn bytes_are_as_they_are_in_binary() {
    let value: Vec<u8> = vec![0, 1, 2, 0xff];
    assert_eq!(encoded(&value), vec![0, 1, 2, 0xff]);
    assert_eq!(
        decode_as::<Vec<u8>>(Some(&[0, 1, 2, 0xff]), PgValueFormat::Binary, PgBuiltinType::Bytea),
        Ok(vec![0, 1, 2, 0xff])
    );
    assert_eq!(
        decode_as::<Vec<u8>>(Some(&[]), PgValueFormat::Binary, PgBuiltinType::Bytea),
        Ok(vec![])
    );
    let slice: &[u8] = &[9, 8];
    assert_eq!(encoded(&slice), vec![9, 8]);
    assert_eq!(lazy_oid(<&[u8] as Type>::type_info()), 17);
    assert_eq!(lazy_oid(<&[u8] as PgHasArrayType>::array_type_info()), 1001);
    assert!(<&[u8] as Type>::compatible(&PgBuiltinType::Bytea.type_info()));
    assert!(<&[u8] as PgHasArrayType>::array_compatible(&PgBuiltinType::ByteaArray.type_info()));
}

#[test]
fn bytes_are_hexadecimal_in_text() {
    assert_eq!(
        decode_as::<Vec<u8>>(Some(b"\\x48656c6c6f"), PgValueFormat::Text, PgBuiltinType::Bytea),
        Ok(b"Hello".to_vec())
    );
    assert_eq!(
        decode_as::<Vec<u8>>(Some(b"\\xDEADbeef"), PgValueFormat::Text, PgBuiltinType::Bytea),
        Ok(vec![0xde, 0xad, 0xbe, 0xef])
    );
    assert_eq!(
        decode_as::<Vec<u8>>(Some(b"\\x"), PgValueFormat::Text, PgBuiltinType::Bytea),
        Ok(vec![])
    );
    // the two bytes of the prefix are skipped, whatever they are
    assert_eq!(
        decode_as::<Vec<u8>>(Some(b"zz0a"), PgValueFormat::Text, PgBuiltinType::Bytea),
        Ok(vec![0x0a])
    );
}

#[test]
fn bytes_in_text_errors() {
    assert_eq!(
        decode_as::<Vec<u8>>(Some(b"\\x4"), PgValueFormat::Text, PgBuiltinType::Bytea),
        Err(DecodeError::InvalidHex(HexError::OddLength))
    );
    assert_eq!(
        decode_as::<Vec<u8>>(Some(b"\\x0g"), PgValueFormat::Text, PgBuiltinType::Bytea),
        Err(DecodeError::InvalidHex(HexError::InvalidHexCharacter { c: 'g', index: 1 }))
    );
    assert_eq!(
        decode_as::<Vec<u8>>(Some(b"\\x00zz00 0"), PgValueFormat::Text, PgBuiltinType::Bytea),
        Err(DecodeError::InvalidHex(HexError::InvalidHexCharacter { c: 'z', index: 2 }))
    );
    // an odd length is found before a bad digit
    assert_eq!(
        decode_as::<Vec<u8>>(Some(b"\\xzz0"), PgValueFormat::Text, PgBuiltinType::Bytea),
        Err(DecodeError::InvalidHex(HexError::OddLength))
    );
    assert_eq!(
        decode_as::<Vec<u8>>(Some(b"\\"), PgValueFormat::Text, PgBuiltinType::Bytea),
        Err(DecodeError::UnexpectedLength)
    );
    assert_eq!(
        decode_as::<Vec<u8>>(Some(&[0xc3]), PgValueFormat::Text, PgBuiltinType::Bytea),
        Err(DecodeError::InvalidUtf8)
    );
    assert_eq!(
        decode_as::<Vec<u8>>(None, PgValueFormat::Text, PgBuiltinType::Bytea),
        Err(DecodeError::UnexpectedNull)
    );
}

#[test]
fn bytes_are_borrowed_from_binary_only() {
    let catalog = LocalPgCatalog::new();
    let type_info = PgBuiltinType::Bytea.type_info();
    let bytes: [u8; 3] = [1, 2, 3];
    let binary = PgValueRef {
        value: Some(&bytes),
        type_info: &type_info,
        format: PgValueFormat::Binary,
        catalog: &catalog,
    };
    assert_eq!(pgtypes::types::bytes::decode(binary), Ok(&bytes[..]));
    let text = PgValueRef {
        value: Some(b"\\x010203"),
        type_info: &type_info,
        format: PgValueFormat::Text,
        catalog: &catalog,
    };
    assert_eq!(pgtypes::types::bytes::decode(text), Err(DecodeError::TextNotBorrowable));
    let null = PgValueRef {
        value: None,
        type_info: &type_info,
        format: PgValueFormat::Binary,
        catalog: &catalog,
    };
    assert_eq!(pgtypes::types::bytes::decode(null), Err(DecodeError::UnexpectedNull));
}

#[test]
fn json_is_framed_with_a_version_marker() {
    let value = Json(b"{\"a\":1}".to_vec());
    let mut buf = PgArgumentBuffer::new();
    buf.push(7);
    assert_eq!(value.encode_by_ref(&mut buf), IsNull::No);
    assert_eq!(buf.as_slice(), b"\x07\x01{\"a\":1}");
    let decoded =
        decode_as::<Json>(Some(&buf.as_slice()[1..]), PgValueFormat::Binary, PgBuiltinType::Jsonb)
            .unwrap();
    assert_eq!(decoded.0, b"{\"a\":1}".to_vec());
}

#[test]
fn json_marker_is_only_taken_off_binary_jsonb() {
    let text = decode_as::<Json>(Some(b"\x01[]"), PgValueFormat::Binary, PgBuiltinType::Json).unwrap();
    assert_eq!(text.0, b"\x01[]".to_vec());
    let text = decode_as::<Json>(Some(b"[1]"), PgValueFormat::Text, PgBuiltinType::Jsonb).unwrap();
    assert_eq!(text.0, b"[1]".to_vec());
    let text = decode_as::<Json>(Some(b" [1]"), PgValueFormat::Binary, PgBuiltinType::Json).unwrap();
    assert_eq!(text.0, b" [1]".to_vec());
}

#[test]
fn json_errors() {
    assert_eq!(
        decode_as::<Json>(Some(b"\x02[]"), PgValueFormat::Binary, PgBuiltinType::Jsonb).err(),
        Some(DecodeError::UnsupportedJsonbVersion(2))
    );
    assert_eq!(
        decode_as::<Json>(Some(b""), PgValueFormat::Binary, PgBuiltinType::Jsonb).err(),
        Some(DecodeError::UnexpectedLength)
    );
    assert_eq!(
        decode_as::<Json>(None, PgValueFormat::Binary, PgBuiltinType::Jsonb).err(),
        Some(DecodeError::UnexpectedNull)
    );
}

#[test]
fn void_decodes_whatever_is_there() {
    assert_eq!(decode_as::<()>(None, PgValueFormat::Binary, PgBuiltinType::Void), Ok(()));
    assert_eq!(decode_as::<()>(Some(&[1, 2]), PgValueFormat::Text, PgBuiltinType::Void), Ok(()));
    assert!(<() as Type>::compatible(&PgBuiltinType::Void.type_info()));
    assert!(<() as Type>::compatible(&PgBuiltinType::Record.type_info()));
    assert!(!<() as Type>::compatible(&PgBuiltinType::Int4.type_info()));
    assert_eq!(lazy_oid(<() as Type>::type_info()), 2278);
}

#[test]
fn text_round_trip() {
    let value = String::from("héllo, wörld");
    let bytes = encoded(&value);
    assert_eq!(bytes, "héllo, wörld".as_bytes().to_vec());
    assert_eq!(
        decode_as::<String>(Some(&bytes), PgValueFormat::Binary, PgBuiltinType::Text),
        Ok(value.clone())
    );
    assert_eq!(decode_as::<String>(Some(&bytes), PgValueFormat::Text, PgBuiltinType::Text), Ok(value));
    assert_eq!(
        decode_as::<String>(Some(&[0x80]), PgValueFormat::Text, PgBuiltinType::Text),
        Err(DecodeError::InvalidUtf8)
    );
}

#[test]
fn null_is_read_as_none() {
    let value = decode_as::<Nullable<i32>>(None, PgValueFormat::Binary, PgBuiltinType::Int4).unwrap();
    assert_eq!(value.0, None);
    let value =
        decode_as::<Nullable<i32>>(Some(&[0, 0, 0, 9]), PgValueFormat::Binary, PgBuiltinType::Int4)
            .unwrap();
    assert_eq!(value.0, Some(9));
    assert_eq!(
        decode_as::<Nullable<i32>>(Some(&[0]), PgValueFormat::Binary, PgBuiltinType::Int4).err(),
        Some(DecodeError::UnexpectedLength)
    );
    let mut buf = PgArgumentBuffer::new();
    assert_eq!(Nullable::<i32>(None).encode_by_ref(&mut buf), IsNull::Yes);
    assert!(buf.is_empty());
    assert_eq!(Nullable(Some(1i16)).encode_by_ref(&mut buf), IsNull::No);
    assert_eq!(buf.as_slice(), &[0, 1]);
}

#[test]
fn scalar_types_name_their_server_type() {
    assert_eq!(lazy_oid(<bool as Type>::type_info()), 16);
    assert_eq!(lazy_oid(<i8 as Type>::type_info()), 18);
    assert_eq!(lazy_oid(<i16 as Type>::type_info()), 21);
    assert_eq!(lazy_oid(<i32 as Type>::type_info()), 23);
    assert_eq!(lazy_oid(<i64 as Type>::type_info()), 20);
    assert_eq!(lazy_oid(<Vec<u8> as Type>::type_info()), 17);
    assert_eq!(lazy_oid(<Json as Type>::type_info()), 3802);
    assert_eq!(lazy_oid(<String as Type>::type_info()), 25);
    assert_eq!(lazy_oid(<Oid as Type>::type_info()), 26);
    assert_eq!(lazy_oid(<Nullable<i32> as Type>::type_info()), 23);
}

#[test]
fn array_types_name_their_server_type() {
    assert_eq!(lazy_oid(<bool as PgHasArrayType>::array_type_info()), 1000);
    assert_eq!(lazy_oid(<u8 as PgHasArrayType>::array_type_info()), 17);
    assert_eq!(lazy_oid(<Vec<u8> as PgHasArrayType>::array_type_info()), 1001);
    assert_eq!(lazy_oid(<i8 as PgHasArrayType>::array_type_info()), 1002);
    assert_eq!(lazy_oid(<i16 as PgHasArrayType>::array_type_info()), 1005);
    assert_eq!(lazy_oid(<i32 as PgHasArrayType>::array_type_info()), 1007);
    assert_eq!(lazy_oid(<i64 as PgHasArrayType>::array_type_info()), 1016);
    assert_eq!(lazy_oid(<Json as PgHasArrayType>::array_type_info()), 3807);
    assert_eq!(lazy_oid(<String as PgHasArrayType>::array_type_info()), 1009);
    assert_eq!(lazy_oid(<(i32, bool) as PgHasArrayType>::array_type_info()), 2287);
}

#[test]
fn compatibility_goes_by_identifier() {
    assert!(<bool as Type>::compatible(&PgBuiltinType::Bool.type_info()));
    assert!(!<bool as Type>::compatible(&PgBuiltinType::Int4.type_info()));
    assert!(<i16 as Type>::compatible(&PgBuiltinType::Int2.type_info()));
    assert!(!<i16 as Type>::compatible(&PgBuiltinType::Int4.type_info()));
    assert!(<i32 as Type>::compatible(&PgBuiltinType::Int4.type_info()));
    assert!(<i64 as Type>::compatible(&PgBuiltinType::Int8.type_info()));
    assert!(<i8 as Type>::compatible(&PgBuiltinType::Char.type_info()));
    assert!(<Vec<u8> as Type>::compatible(&PgBuiltinType::Bytea.type_info()));
    assert!(!<Vec<u8> as Type>::compatible(&PgBuiltinType::ByteaArray.type_info()));
    assert!(<Json as Type>::compatible(&PgBuiltinType::Json.type_info()));
    assert!(<Json as Type>::compatible(&PgBuiltinType::Jsonb.type_info()));
    assert!(!<Json as Type>::compatible(&PgBuiltinType::Text.type_info()));
    assert!(<String as Type>::compatible(&PgBuiltinType::Text.type_info()));
    assert!(<String as Type>::compatible(&PgBuiltinType::Unknown.type_info()));
    assert!(<(i32,) as Type>::compatible(&PgBuiltinType::Record.type_info()));
    assert!(<bool as PgHasArrayType>::array_compatible(&PgBuiltinType::BoolArray.type_info()));
    assert!(!<bool as PgHasArrayType>::array_compatible(&PgBuiltinType::Bool.type_info()));
    assert!(<u8 as PgHasArrayType>::array_compatible(&PgBuiltinType::Bytea.type_info()));
    assert!(<Vec<u8> as PgHasArrayType>::array_compatible(&PgBuiltinType::ByteaArray.type_info()));
    assert!(<(i32, i32) as PgHasArrayType>::array_compatible(&PgBuiltinType::RecordArray.type_info()));
}

#[test]
fn json_arrays_go_by_their_element() {
    assert!(<Json as PgHasArrayType>::array_compatible(&PgBuiltinType::JsonArray.type_info()));
    assert!(<Json as PgHasArrayType>::array_compatible(&PgBuiltinType::JsonbArray.type_info()));
    assert!(!<Json as PgHasArrayType>::array_compatible(&PgBuiltinType::Jsonb.type_info()));
    assert!(!<Json as PgHasArrayType>::array_compatible(&PgBuiltinType::TextArray.type_info()));
    let custom = PgTypeInfo {
        oid: Oid(90000),
        name: String::from("_docs"),
        kind: PgTypeKind::Array(Oid(114)),
    };
    assert!(<Json as PgHasArrayType>::array_compatible(&custom));
}
