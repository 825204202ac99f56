use pgtypes::arguments::{PgArgumentBuffer, PgArguments, PgPatch};
use pgtypes::codec::Encode;
use pgtypes::database::{param_type_for_id, return_type_for_id, ParamChecking};
use pgtypes::type_info::{Oid, PgTypeInfo, PgTypeKind};
use pgtypes::types::json::Json;
use pgtypes::types::option::Nullable;
use pgtypes::wire::{get_i32, get_u32, put_i16, put_i32, put_i64, put_u16, put_u32, put_u64, set_i32, set_u32};
use pgtypes::PgBuiltinType;

#[test]
fn a_new_buffer_is_empty() {
    let buf = PgArgumentBuffer::new();
    assert_eq!(buf.len(), 0);
    assert!(buf.is_empty());
    assert_eq!(buf.as_slice(), &[] as &[u8]);
    assert_eq!(buf.type_hole(0), None);
}

#[test]
fn bytes_are_appended() {
    let mut buf = PgArgumentBuffer::new();
    buf.push(1);
    buf.extend(&[2, 3]);
    buf.put_u32(0x0405_0607);
    buf.put_i16(-1);
    buf.put_i32(-2);
    buf.put_i64(3);
    assert_eq!(
        buf.as_slice(),
        &[1, 2, 3, 4, 5, 6, 7, 0xff, 0xff, 0xff, 0xff, 0xff, 0xfe, 0, 0, 0, 0, 0, 0, 0, 3]
    );
    assert_eq!(buf.len(), 21);
    buf.set_u32(1, 0xa0b0_c0d0);
    assert_eq!(&buf.as_slice()[..6], &[1, 0xa0, 0xb0, 0xc0, 0xd0, 6]);
}

#[test]
fn a_value_is_an_element_with_its_length() {
    let mut buf = PgArgumentBuffer::new();
    buf.encode(7i16);
    buf.encode(String::from("héllo"));
    buf.encode(Nullable::<i32>(None));
    buf.encode(Vec::<u8>::new());
    assert_eq!(
        buf.as_slice(),
        &[
            0, 0, 0, 2, 0, 7, // two bytes
            0, 0, 0, 6, b'h', 0xc3, 0xa9, b'l', b'l', b'o', // six bytes
            0xff, 0xff, 0xff, 0xff, // null
            0, 0, 0, 0, // no bytes
        ]
    );
}

#[test]
fn arguments_note_their_types() {
    let mut arguments = PgArguments::new();
    assert_eq!(arguments.len(), 0);
    arguments.add(1i32);
    arguments.add(true);
    assert_eq!(arguments.len(), 2);
    assert_eq!(arguments.buffer().as_slice(), &[0, 0, 0, 4, 0, 0, 0, 1, 0, 0, 0, 1, 1]);
}

#[test]
fn the_json_marker_becomes_a_space_for_textual_json() {
    let json = PgBuiltinType::Json.type_info();
    let jsonb = PgBuiltinType::Jsonb.type_info();
    let json_array = PgBuiltinType::JsonArray.type_info();
    let int4 = PgBuiltinType::Int4.type_info();

    let mut arguments = PgArguments::new();
    arguments.add(5i32);
    arguments.add(Json(b"{}".to_vec()));
    arguments.add(Json(b"[]".to_vec()));
    arguments.add(Json(b"1".to_vec()));
    let before: Vec<u8> = vec![
        0, 0, 0, 4, 0, 0, 0, 5, //
        0, 0, 0, 3, 1, b'{', b'}', //
        0, 0, 0, 3, 1, b'[', b']', //
        0, 0, 0, 2, 1, b'1',
    ];
    assert_eq!(arguments.buffer().as_slice(), &before[..]);

    // the patches are applied on the buffer by itself too
    let mut buf = PgArgumentBuffer::new();
    buf.patch(PgPatch::JsonVersion);
    buf.push(1);
    buf.apply_patches(&vec![PgBuiltinType::Json.type_info()]);
    assert_eq!(buf.as_slice(), &[b' ']);
    let mut buf = PgArgumentBuffer::new();
    buf.patch(PgPatch::JsonVersion);
    buf.push(1);
    buf.apply_patches(&vec![PgBuiltinType::Jsonb.type_info()]);
    assert_eq!(buf.as_slice(), &[1]);
    // a patch is applied once
    buf.apply_patches(&vec![PgBuiltinType::Json.type_info()]);
    assert_eq!(buf.as_slice(), &[1]);
    // a patch for a parameter that is not there, or for a byte that was
    // never written, changes nothing
    let mut buf = PgArgumentBuffer::new();
    buf.patch(PgPatch::JsonVersion);
    buf.apply_patches(&vec![PgBuiltinType::Json.type_info()]);
    assert!(buf.is_empty());
    let mut buf = PgArgumentBuffer::new();
    buf.patch(PgPatch::JsonVersion);
    buf.push(1);
    buf.apply_patches(&vec![]);
    assert_eq!(buf.as_slice(), &[1]);
    let _ = (json, jsonb, json_array, int4);
}

#[test]
fn each_patch_looks_at_its_own_parameter() {
    let mut first = PgArguments::new();
    first.add(Json(b"{}".to_vec()));
    let mut buf = PgArgumentBuffer::new();
    Json(b"{}".to_vec()).encode_by_ref(&mut buf);
    buf.apply_patches(&vec![PgBuiltinType::JsonArray.type_info()]);
    assert_eq!(buf.as_slice(), b" {}");
    let mut buf = PgArgumentBuffer::new();
    Json(b"{}".to_vec()).encode_by_ref(&mut buf);
    buf.apply_patches(&vec![PgBuiltinType::Int4.type_info()]);
    assert_eq!(buf.as_slice(), b"\x01{}");
    assert_eq!(first.len(), 1);
}

#[test]
fn a_type_known_by_name_leaves_room_for_its_identifier() {
    let mut buf = PgArgumentBuffer::new();
    buf.push(9);
    buf.patch_type_by_name("mood");
    buf.push(8);
    buf.patch_type_by_name("hue");
    assert_eq!(buf.as_slice(), &[9, 0, 0, 0, 0, 8, 0, 0, 0, 0]);
    assert_eq!(buf.type_hole(0), Some((1, "mood")));
    assert_eq!(buf.type_hole(1), Some((6, "hue")));
    assert_eq!(buf.type_hole(2), None);
    buf.fill_type_hole(Oid(0x0102_0304));
    assert_eq!(buf.as_slice(), &[9, 1, 2, 3, 4, 8, 0, 0, 0, 0]);
    assert_eq!(buf.type_hole(0), Some((6, "hue")));
    buf.fill_type_hole(Oid(5));
    assert_eq!(buf.as_slice(), &[9, 1, 2, 3, 4, 8, 0, 0, 0, 5]);
    assert_eq!(buf.type_hole(0), None);
    buf.fill_type_hole(Oid(6));
    assert_eq!(buf.as_slice(), &[9, 1, 2, 3, 4, 8, 0, 0, 0, 5]);
}

#[test]
fn numbers_in_network_byte_order() {
    let mut bytes: Vec<u8> = Vec::new();
    put_u16(&mut bytes, 0x0102);
    put_u32(&mut bytes, 0x0304_0506);
    put_u64(&mut bytes, 0x0708_090a_0b0c_0d0e);
    put_i16(&mut bytes, i16::MIN);
    put_i32(&mut bytes, i32::MIN);
    put_i64(&mut bytes, -1);
    assert_eq!(
        bytes,
        vec![
            1, 2, 3, 4, 5, 6, 7, 8, 9, 10, 11, 12, 13, 14, 0x80, 0, 0x80, 0, 0, 0, 0xff, 0xff, 0xff,
            0xff, 0xff, 0xff, 0xff, 0xff
        ]
    );
    assert_eq!(get_u32(&bytes[2..]), 0x0304_0506);
    assert_eq!(get_u32(&[0xff, 0xff, 0xff, 0xff]), u32::MAX);
    assert_eq!(get_i32(&[0xff, 0xff, 0xff, 0xff, 9]), -1);
    assert_eq!(get_i32(&[0x80, 0, 0, 0]), i32::MIN);
    assert_eq!(get_i32(&[0x7f, 0xff, 0xff, 0xff]), i32::MAX);
    set_u32(&mut bytes, 0, 0xa1a2_a3a4);
    set_i32(&mut bytes, 4, -2);
    assert_eq!(&bytes[..9], &[0xa1, 0xa2, 0xa3, 0xa4, 0xff, 0xff, 0xff, 0xfe, 9]);
}

#[test]
fn rust_types_for_server_types() {
    let expected: [(PgBuiltinType, Option<&str>, Option<&str>); 15] = [
        (PgBuiltinType::Void, Some("()"), Some("()")),
        (PgBuiltinType::Record, Some("()"), Some("()")),
        (PgBuiltinType::Bool, Some("bool"), Some("bool")),
        (PgBuiltinType::Char, Some("i8"), Some("i8")),
        (PgBuiltinType::Int2, Some("i16"), Some("i16")),
        (PgBuiltinType::Int4, Some("i32"), Some("i32")),
        (PgBuiltinType::Int8, Some("i64"), Some("i64")),
        (PgBuiltinType::Bytea, Some("Vec<u8>"), Some("&[u8]")),
        (PgBuiltinType::Json, Some("Json"), Some("Json")),
        (PgBuiltinType::Jsonb, Some("Json"), Some("Json")),
        (PgBuiltinType::Float4, Some("f32"), Some("f32")),
        (PgBuiltinType::Float8, Some("f64"), Some("f64")),
        (PgBuiltinType::Text, Some("String"), Some("&str")),
        (PgBuiltinType::Unknown, Some("String"), Some("&str")),
        (PgBuiltinType::Int4Array, None, None),
    ];
    for (builtin, returned, param) in expected {
        assert_eq!(return_type_for_id(&builtin.type_info()), returned);
        assert_eq!(param_type_for_id(&builtin.type_info()), param);
    }
    let custom = PgTypeInfo { oid: Oid(50000), name: String::from("mood"), kind: PgTypeKind::Simple };
    assert_eq!(return_type_for_id(&custom), None);
    assert!(ParamChecking::Strong == ParamChecking::Strong);
    assert!(ParamChecking::Strong != ParamChecking::Weak);
}
