//! Byte strings: as they are in binary, and in text as `\x` and two
//! hexadecimal digits for each byte.

use vstd::prelude::*;
use vstd::slice::{slice_subrange, slice_to_vec};
use vstd::utf8::encode_utf8;
use crate::arguments::{ArgumentBufferView, PgArgumentBuffer};
use crate::builtin::PgBuiltinType;
use crate::codec::{Decode, Encode, IsNull, PgHasArrayType, Type};
use crate::error::{DecodeError, HexError};
use crate::type_info::{LazyPgTypeInfo, LazyTypeInfoView, PgTypeInfo, TypeInfoView};
use crate::value::{PgValueFormat, PgValueRef, ValueView};

verus! {

/// An array of bytes is a byte string.
impl PgHasArrayType for u8 {
    open spec fn spec_array_type_info() -> LazyTypeInfoView {
        PgBuiltinType::Bytea.spec_lazy()
    }

    open spec fn spec_array_compatible(ty: TypeInfoView) -> bool {
        ty.oid == PgBuiltinType::Bytea.spec_oid()
    }

    fn array_type_info() -> (r: LazyPgTypeInfo) {
        PgBuiltinType::Bytea.lazy()
    }

    fn array_compatible(ty: &PgTypeInfo) -> (b: bool) {
        ty.oid.0 == PgBuiltinType::Bytea.oid().0
    }
}

impl Type for Vec<u8> {
    open spec fn spec_type_info() -> LazyTypeInfoView {
        <u8 as PgHasArrayType>::spec_array_type_info()
    }

    open spec fn spec_compatible(ty: TypeInfoView) -> bool {
        <u8 as PgHasArrayType>::spec_array_compatible(ty)
    }

    fn type_info() -> (r: LazyPgTypeInfo) {
        <u8 as PgHasArrayType>::array_type_info()
    }

    fn compatible(ty: &PgTypeInfo) -> (b: bool) {
        <u8 as PgHasArrayType>::array_compatible(ty)
    }
}

impl<'a> Type for &'a [u8] {
    open spec fn spec_type_info() -> LazyTypeInfoView {
        <u8 as PgHasArrayType>::spec_array_type_info()
    }

    open spec fn spec_compatible(ty: TypeInfoView) -> bool {
        <u8 as PgHasArrayType>::spec_array_compatible(ty)
    }

    fn type_info() -> (r: LazyPgTypeInfo) {
        <u8 as PgHasArrayType>::array_type_info()
    }

    fn compatible(ty: &PgTypeInfo) -> (b: bool) {
        <u8 as PgHasArrayType>::array_compatible(ty)
    }
}

/// An array of byte strings.
impl<'a> PgHasArrayType for &'a [u8] {
    open spec fn spec_array_type_info() -> LazyTypeInfoView {
        PgBuiltinType::ByteaArray.spec_lazy()
    }

    open spec fn spec_array_compatible(ty: TypeInfoView) -> bool {
        ty.oid == PgBuiltinType::ByteaArray.spec_oid()
    }

    fn array_type_info() -> (r: LazyPgTypeInfo) {
        PgBuiltinType::ByteaArray.lazy()
    }

    fn array_compatible(ty: &PgTypeInfo) -> (b: bool) {
        ty.oid.0 == PgBuiltinType::ByteaArray.oid().0
    }
}

/// An array of byte strings.
impl PgHasArrayType for Vec<u8> {
    open spec fn spec_array_type_info() -> LazyTypeInfoView {
        <&[u8] as PgHasArrayType>::spec_array_type_info()
    }

    open spec fn spec_array_compatible(ty: TypeInfoView) -> bool {
        <&[u8] as PgHasArrayType>::spec_array_compatible(ty)
    }

    fn array_type_info() -> (r: LazyPgTypeInfo) {
        <&[u8] as PgHasArrayType>::array_type_info()
    }

    fn array_compatible(ty: &PgTypeInfo) -> (b: bool) {
        <&[u8] as PgHasArrayType>::array_compatible(ty)
    }
}

impl<'a> Encode for &'a [u8] {
    open spec fn encode_spec(&self, before: ArgumentBufferView) -> ArgumentBufferView {
        before.extend(self@)
    }

    open spec fn null_spec(&self) -> IsNull {
        IsNull::No
    }

    fn encode_by_ref(&self, buf: &mut PgArgumentBuffer) -> (r: IsNull) {
        buf.extend(self);
        IsNull::No
    }
}

impl Encode for Vec<u8> {
    open spec fn encode_spec(&self, before: ArgumentBufferView) -> ArgumentBufferView {
        before.extend(self@)
    }

    open spec fn null_spec(&self) -> IsNull {
        IsNull::No
    }

    fn encode_by_ref(&self, buf: &mut PgArgumentBuffer) -> (r: IsNull) {
        self.as_slice().encode_by_ref(buf)
    }
}

/// The value of a hexadecimal digit, in either case.
pub open spec fn hex_value(c: u8) -> Option<u8> {
    if 0x41 <= c <= 0x46 {
        Some((c - 0x41 + 10) as u8)
    } else if 0x61 <= c <= 0x66 {
        Some((c - 0x61 + 10) as u8)
    } else if 0x30 <= c <= 0x39 {
        Some((c - 0x30) as u8)
    } else {
        None
    }
}

/// The position of the first byte from `from` on that is no hexadecimal
/// digit; the length of the text where there is none.
pub open spec fn first_bad_digit(s: Seq<u8>, from: int) -> int
    decreases s.len() - from,
{
    if from < 0 || from >= s.len() {
        s.len() as int
    } else if hex_value(s[from]) is None {
        from
    } else {
        first_bad_digit(s, from + 1)
    }
}

/// The byte string that a hexadecimal text stands for: two digits for each
/// byte, the high digit first. A text of odd length is refused, and then a
/// text with a byte that is no digit, with the first such byte.
pub open spec fn hex_decoded(s: Seq<u8>) -> Result<Seq<u8>, HexError> {
    if s.len() % 2 != 0 {
        Err(HexError::OddLength)
    } else if first_bad_digit(s, 0) < s.len() {
        Err(
            HexError::InvalidHexCharacter {
                c: s[first_bad_digit(s, 0)] as char,
                index: first_bad_digit(s, 0) as usize,
            },
        )
    } else {
        Ok(
            Seq::new(
                s.len() / 2,
                |i: int| (hex_value(s[2 * i])->0 * 16 + hex_value(s[2 * i + 1])->0) as u8,
            ),
        )
    }
}

/// `hex::decode`: the bytes that a hexadecimal text stands for. The digits
/// `a` to `f` count in either case. A text of odd length gives `OddLength`;
/// otherwise the first byte that is no digit gives `InvalidHexCharacter`
/// with the byte and its position.
#[verifier::external_body]
pub(crate) fn hex_decode(data: &[u8]) -> (r: Result<Vec<u8>, HexError>)
    ensures
        match hex_decoded(data@) {
            Ok(bytes) => r matches Ok(v) && v@ == bytes,
            Err(e) => r matches Err(f) && f == e,
        },
{
    match hex::decode(data) {
        Ok(bytes) => Ok(bytes),
        Err(hex::FromHexError::InvalidHexCharacter { c, index }) => Err(
            HexError::InvalidHexCharacter { c, index },
        ),
        Err(hex::FromHexError::OddLength) => Err(HexError::OddLength),
        Err(hex::FromHexError::InvalidStringLength) => Err(HexError::InvalidStringLength),
    }
}

/// What decoding a value as a byte string gives. In binary the bytes are
/// the value. In text the first two bytes are the prefix and are skipped,
/// and the rest is hexadecimal.
pub open spec fn decoded_bytes(value: ValueView) -> Result<Seq<u8>, DecodeError> {
    match value.format {
        PgValueFormat::Binary => value.bytes(),
        PgValueFormat::Text => match value.text() {
            Err(e) => Err(e),
            Ok(text) => if encode_utf8(text).len() < 2 {
                Err(DecodeError::UnexpectedLength)
            } else {
                match hex_decoded(encode_utf8(text).skip(2)) {
                    Ok(bytes) => Ok(bytes),
                    Err(e) => Err(DecodeError::InvalidHex(e)),
                }
            },
        },
    }
}

impl Decode for Vec<u8> {
    open spec fn decoded(value: ValueView) -> Result<Seq<u8>, DecodeError> {
        decoded_bytes(value)
    }

    fn decode(value: PgValueRef<'_>) -> (r: Result<Self, DecodeError>) {
        match value.format() {
            PgValueFormat::Binary => {
                let bytes = value.as_bytes()?;
                Ok(slice_to_vec(bytes))
            },
            PgValueFormat::Text => {
                let text = value.as_str()?.as_bytes();
                if text.len() < 2 {
                    return Err(DecodeError::UnexpectedLength);
                }
                match hex_decode(slice_subrange(text, 2, text.len())) {
                    Ok(bytes) => Ok(bytes),
                    Err(e) => Err(DecodeError::InvalidHex(e)),
                }
            },
        }
    }
}

/// What borrowing the bytes of a value gives: the bytes of a binary value.
/// A text value has to be decoded into an owned byte string.
pub open spec fn borrowed_bytes(value: ValueView) -> Result<Seq<u8>, DecodeError> {
    match value.format {
        PgValueFormat::Binary => value.bytes(),
        PgValueFormat::Text => Err(DecodeError::TextNotBorrowable),
    }
}

/// Borrows the bytes of a binary value.
pub fn decode<'r>(value: PgValueRef<'r>) -> (r: Result<&'r [u8], DecodeError>)
    ensures
        match r {
            Ok(bytes) => borrowed_bytes(value@) == Ok::<Seq<u8>, DecodeError>(bytes@),
            Err(e) => borrowed_bytes(value@) == Err::<Seq<u8>, DecodeError>(e),
        },
{
    match value.format() {
        PgValueFormat::Binary => value.as_bytes(),
        PgValueFormat::Text => Err(DecodeError::TextNotBorrowable),
    }
}

/// A byte string that is written and read back in binary is the same.
pub proof fn lemma_bytes_binary_round_trip(v: Vec<u8>, before: ArgumentBufferView, value: ValueView)
    requires
        value.format == PgValueFormat::Binary,
        value.value == Some(v.encode_spec(before).bytes.skip(before.bytes.len() as int)),
    ensures
        <Vec<u8> as Decode>::decoded(value) == Ok::<Seq<u8>, DecodeError>(v@),
{
    assert(v.encode_spec(before).bytes.skip(before.bytes.len() as int) =~= v@);
}

} // verus!
