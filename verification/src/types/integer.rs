//! The integers: `"char"` in one byte, and `int2`, `int4` and `int8` in
//! network byte order in binary and as decimal numbers in text.

use vstd::prelude::*;
use vstd::utf8::encode_utf8;
use crate::arguments::{ArgumentBufferView, PgArgumentBuffer};
use crate::builtin::PgBuiltinType;
use crate::codec::{Decode, Encode, IsNull, PgHasArrayType, Type};
use crate::error::DecodeError;
use crate::text::{parse_int, parsed_int};
use crate::type_info::{LazyPgTypeInfo, LazyTypeInfoView, Oid, PgTypeInfo, TypeInfoView};
use crate::value::{PgValueFormat, PgValueRef, ValueView};
use crate::wire::{
    be_i16, be_i32, be_i64, i16_be_bytes, i32_be_bytes, i64_be_bytes, lemma_i16_round_trip,
    lemma_i32_round_trip, lemma_i64_round_trip, read_i16, read_i32, read_i64, to_signed,
    to_unsigned, u32_be_bytes,
};

verus! {

impl Type for i8 {
    open spec fn spec_type_info() -> LazyTypeInfoView {
        PgBuiltinType::Char.spec_lazy()
    }

    open spec fn spec_compatible(ty: TypeInfoView) -> bool {
        ty.oid == PgBuiltinType::Char.spec_oid()
    }

    fn type_info() -> (r: LazyPgTypeInfo) {
        PgBuiltinType::Char.lazy()
    }

    fn compatible(ty: &PgTypeInfo) -> (b: bool) {
        ty.oid.0 == PgBuiltinType::Char.oid().0
    }
}

impl PgHasArrayType for i8 {
    open spec fn spec_array_type_info() -> LazyTypeInfoView {
        PgBuiltinType::CharArray.spec_lazy()
    }

    open spec fn spec_array_compatible(ty: TypeInfoView) -> bool {
        ty.oid == PgBuiltinType::CharArray.spec_oid()
    }

    fn array_type_info() -> (r: LazyPgTypeInfo) {
        PgBuiltinType::CharArray.lazy()
    }

    fn array_compatible(ty: &PgTypeInfo) -> (b: bool) {
        ty.oid.0 == PgBuiltinType::CharArray.oid().0
    }
}

/// The byte of a value in two's complement.
pub open spec fn i8_byte(v: i8) -> u8 {
    to_unsigned(v as int, 0x100) as u8
}

/// The value of a byte in two's complement.
pub open spec fn byte_i8(b: u8) -> i8 {
    to_signed(b as int, 0x100) as i8
}

impl Encode for i8 {
    open spec fn encode_spec(&self, before: ArgumentBufferView) -> ArgumentBufferView {
        before.extend(seq![i8_byte(*self)])
    }

    open spec fn null_spec(&self) -> IsNull {
        IsNull::No
    }

    fn encode_by_ref(&self, buf: &mut PgArgumentBuffer) -> (r: IsNull) {
        let byte: u8 = if *self < 0 {
            (*self as i16 + 0x100) as u8
        } else {
            *self as u8
        };
        buf.push(byte);
        IsNull::No
    }
}

/// What decoding a value as `i8` gives, in either format: the first byte,
/// and 0 for a value without bytes, which is how the text form renders 0.
pub open spec fn decoded_i8(value: ValueView) -> Result<i8, DecodeError> {
    match value.bytes() {
        Err(e) => Err(e),
        Ok(bytes) => if bytes.len() == 0 {
            Ok(0i8)
        } else {
            Ok(byte_i8(bytes[0]))
        },
    }
}

impl Decode for i8 {
    open spec fn decoded(value: ValueView) -> Result<i8, DecodeError> {
        decoded_i8(value)
    }

    fn decode(value: PgValueRef<'_>) -> (r: Result<Self, DecodeError>) {
        let bytes = value.as_bytes()?;
        if bytes.len() == 0 {
            return Ok(0);
        }
        let byte: u8 = bytes[0];
        if byte >= 0x80 {
            Ok((byte as i16 - 0x100) as i8)
        } else {
            Ok(byte as i8)
        }
    }
}

/// A value that is written and read back in binary is the same value.
pub proof fn lemma_i8_binary_round_trip(v: i8, before: ArgumentBufferView, value: ValueView)
    requires
        value.format == PgValueFormat::Binary,
        value.value == Some(v.encode_spec(before).bytes.skip(before.bytes.len() as int)),
    ensures
        <i8 as Decode>::decoded(value) == Ok::<i8, DecodeError>(v),
{
}

impl Type for i16 {
    open spec fn spec_type_info() -> LazyTypeInfoView {
        PgBuiltinType::Int2.spec_lazy()
    }

    open spec fn spec_compatible(ty: TypeInfoView) -> bool {
        ty.oid == PgBuiltinType::Int2.spec_oid()
    }

    fn type_info() -> (r: LazyPgTypeInfo) {
        PgBuiltinType::Int2.lazy()
    }

    fn compatible(ty: &PgTypeInfo) -> (b: bool) {
        ty.oid.0 == PgBuiltinType::Int2.oid().0
    }
}

impl PgHasArrayType for i16 {
    open spec fn spec_array_type_info() -> LazyTypeInfoView {
        PgBuiltinType::Int2Array.spec_lazy()
    }

    open spec fn spec_array_compatible(ty: TypeInfoView) -> bool {
        ty.oid == PgBuiltinType::Int2Array.spec_oid()
    }

    fn array_type_info() -> (r: LazyPgTypeInfo) {
        PgBuiltinType::Int2Array.lazy()
    }

    fn array_compatible(ty: &PgTypeInfo) -> (b: bool) {
        ty.oid.0 == PgBuiltinType::Int2Array.oid().0
    }
}

impl Encode for i16 {
    open spec fn encode_spec(&self, before: ArgumentBufferView) -> ArgumentBufferView {
        before.extend(i16_be_bytes(*self))
    }

    open spec fn null_spec(&self) -> IsNull {
        IsNull::No
    }

    fn encode_by_ref(&self, buf: &mut PgArgumentBuffer) -> (r: IsNull) {
        buf.put_i16(*self);
        IsNull::No
    }
}

/// What decoding a value as `i16` gives. In binary the first 2 bytes are
/// the number in two's complement, most significant byte first. In text the
/// value is a decimal number in the range of `i16`.
pub open spec fn decoded_i16(value: ValueView) -> Result<i16, DecodeError> {
    match value.format {
        PgValueFormat::Binary => match value.bytes() {
            Err(e) => Err(e),
            Ok(bytes) => if bytes.len() < 2 {
                Err(DecodeError::UnexpectedLength)
            } else {
                Ok(be_i16(bytes))
            },
        },
        PgValueFormat::Text => match value.text() {
            Err(e) => Err(e),
            Ok(text) => match parsed_int(encode_utf8(text), i16::MIN as int, i16::MAX as int) {
                Some(v) => Ok(v as i16),
                None => Err(DecodeError::InvalidNumber),
            },
        },
    }
}

impl Decode for i16 {
    open spec fn decoded(value: ValueView) -> Result<i16, DecodeError> {
        decoded_i16(value)
    }

    fn decode(value: PgValueRef<'_>) -> (r: Result<Self, DecodeError>) {
        match value.format() {
            PgValueFormat::Binary => {
                let bytes = value.as_bytes()?;
                if bytes.len() < 2 {
                    return Err(DecodeError::UnexpectedLength);
                }
                Ok(read_i16(bytes))
            },
            PgValueFormat::Text => {
                let text = value.as_str()?;
                match parse_int(text.as_bytes(), i16::MIN as i64, i16::MAX as i64) {
                    Some(v) => Ok(v as i16),
                    None => Err(DecodeError::InvalidNumber),
                }
            },
        }
    }
}

/// A value that is written and read back in binary is the same value.
pub proof fn lemma_i16_binary_round_trip(v: i16, before: ArgumentBufferView, value: ValueView)
    requires
        value.format == PgValueFormat::Binary,
        value.value == Some(v.encode_spec(before).bytes.skip(before.bytes.len() as int)),
    ensures
        <i16 as Decode>::decoded(value) == Ok::<i16, DecodeError>(v),
{
    lemma_i16_round_trip(v);
}

impl Type for i32 {
    open spec fn spec_type_info() -> LazyTypeInfoView {
        PgBuiltinType::Int4.spec_lazy()
    }

    open spec fn spec_compatible(ty: TypeInfoView) -> bool {
        ty.oid == PgBuiltinType::Int4.spec_oid()
    }

    fn type_info() -> (r: LazyPgTypeInfo) {
        PgBuiltinType::Int4.lazy()
    }

    fn compatible(ty: &PgTypeInfo) -> (b: bool) {
        ty.oid.0 == PgBuiltinType::Int4.oid().0
    }
}

impl PgHasArrayType for i32 {
    open spec fn spec_array_type_info() -> LazyTypeInfoView {
        PgBuiltinType::Int4Array.spec_lazy()
    }

    open spec fn spec_array_compatible(ty: TypeInfoView) -> bool {
        ty.oid == PgBuiltinType::Int4Array.spec_oid()
    }

    fn array_type_info() -> (r: LazyPgTypeInfo) {
        PgBuiltinType::Int4Array.lazy()
    }

    fn array_compatible(ty: &PgTypeInfo) -> (b: bool) {
        ty.oid.0 == PgBuiltinType::Int4Array.oid().0
    }
}

impl Encode for i32 {
    open spec fn encode_spec(&self, before: ArgumentBufferView) -> ArgumentBufferView {
        before.extend(i32_be_bytes(*self))
    }

    open spec fn null_spec(&self) -> IsNull {
        IsNull::No
    }

    fn encode_by_ref(&self, buf: &mut PgArgumentBuffer) -> (r: IsNull) {
        buf.put_i32(*self);
        IsNull::No
    }
}

/// What decoding a value as `i32` gives. In binary the first 4 bytes are
/// the number in two's complement, most significant byte first. In text the
/// value is a decimal number in the range of `i32`.
pub open spec fn decoded_i32(value: ValueView) -> Result<i32, DecodeError> {
    match value.format {
        PgValueFormat::Binary => match value.bytes() {
            Err(e) => Err(e),
            Ok(bytes) => if bytes.len() < 4 {
                Err(DecodeError::UnexpectedLength)
            } else {
                Ok(be_i32(bytes))
            },
        },
        PgValueFormat::Text => match value.text() {
            Err(e) => Err(e),
            Ok(text) => match parsed_int(encode_utf8(text), i32::MIN as int, i32::MAX as int) {
                Some(v) => Ok(v as i32),
                None => Err(DecodeError::InvalidNumber),
            },
        },
    }
}

impl Decode for i32 {
    open spec fn decoded(value: ValueView) -> Result<i32, DecodeError> {
        decoded_i32(value)
    }

    fn decode(value: PgValueRef<'_>) -> (r: Result<Self, DecodeError>) {
        match value.format() {
            PgValueFormat::Binary => {
                let bytes = value.as_bytes()?;
                if bytes.len() < 4 {
                    return Err(DecodeError::UnexpectedLength);
                }
                Ok(read_i32(bytes))
            },
            PgValueFormat::Text => {
                let text = value.as_str()?;
                match parse_int(text.as_bytes(), i32::MIN as i64, i32::MAX as i64) {
                    Some(v) => Ok(v as i32),
                    None => Err(DecodeError::InvalidNumber),
                }
            },
        }
    }
}

/// A value that is written and read back in binary is the same value.
pub proof fn lemma_i32_binary_round_trip(v: i32, before: ArgumentBufferView, value: ValueView)
    requires
        value.format == PgValueFormat::Binary,
        value.value == Some(v.encode_spec(before).bytes.skip(before.bytes.len() as int)),
    ensures
        <i32 as Decode>::decoded(value) == Ok::<i32, DecodeError>(v),
{
    lemma_i32_round_trip(v);
}

impl Type for i64 {
    open spec fn spec_type_info() -> LazyTypeInfoView {
        PgBuiltinType::Int8.spec_lazy()
    }

    open spec fn spec_compatible(ty: TypeInfoView) -> bool {
        ty.oid == PgBuiltinType::Int8.spec_oid()
    }

    fn type_info() -> (r: LazyPgTypeInfo) {
        PgBuiltinType::Int8.lazy()
    }

    fn compatible(ty: &PgTypeInfo) -> (b: bool) {
        ty.oid.0 == PgBuiltinType::Int8.oid().0
    }
}

impl PgHasArrayType for i64 {
    open spec fn spec_array_type_info() -> LazyTypeInfoView {
        PgBuiltinType::Int8Array.spec_lazy()
    }

    open spec fn spec_array_compatible(ty: TypeInfoView) -> bool {
        ty.oid == PgBuiltinType::Int8Array.spec_oid()
    }

    fn array_type_info() -> (r: LazyPgTypeInfo) {
        PgBuiltinType::Int8Array.lazy()
    }

    fn array_compatible(ty: &PgTypeInfo) -> (b: bool) {
        ty.oid.0 == PgBuiltinType::Int8Array.oid().0
    }
}

impl Encode for i64 {
    open spec fn encode_spec(&self, before: ArgumentBufferView) -> ArgumentBufferView {
        before.extend(i64_be_bytes(*self))
    }

    open spec fn null_spec(&self) -> IsNull {
        IsNull::No
    }

    fn encode_by_ref(&self, buf: &mut PgArgumentBuffer) -> (r: IsNull) {
        buf.put_i64(*self);
        IsNull::No
    }
}

/// What decoding a value as `i64` gives. In binary the first 8 bytes are
/// the number in two's complement, most significant byte first. In text the
/// value is a decimal number in the range of `i64`.
pub open spec fn decoded_i64(value: ValueView) -> Result<i64, DecodeError> {
    match value.format {
        PgValueFormat::Binary => match value.bytes() {
            Err(e) => Err(e),
            Ok(bytes) => if bytes.len() < 8 {
                Err(DecodeError::UnexpectedLength)
            } else {
                Ok(be_i64(bytes))
            },
        },
        PgValueFormat::Text => match value.text() {
            Err(e) => Err(e),
            Ok(text) => match parsed_int(encode_utf8(text), i64::MIN as int, i64::MAX as int) {
                Some(v) => Ok(v as i64),
                None => Err(DecodeError::InvalidNumber),
            },
        },
    }
}

impl Decode for i64 {
    open spec fn decoded(value: ValueView) -> Result<i64, DecodeError> {
        decoded_i64(value)
    }

    fn decode(value: PgValueRef<'_>) -> (r: Result<Self, DecodeError>) {
        match value.format() {
            PgValueFormat::Binary => {
                let bytes = value.as_bytes()?;
                if bytes.len() < 8 {
                    return Err(DecodeError::UnexpectedLength);
                }
                Ok(read_i64(bytes))
            },
            PgValueFormat::Text => {
                let text = value.as_str()?;
                match parse_int(text.as_bytes(), i64::MIN as i64, i64::MAX as i64) {
                    Some(v) => Ok(v as i64),
                    None => Err(DecodeError::InvalidNumber),
                }
            },
        }
    }
}

/// A value that is written and read back in binary is the same value.
pub proof fn lemma_i64_binary_round_trip(v: i64, before: ArgumentBufferView, value: ValueView)
    requires
        value.format == PgValueFormat::Binary,
        value.value == Some(v.encode_spec(before).bytes.skip(before.bytes.len() as int)),
    ensures
        <i64 as Decode>::decoded(value) == Ok::<i64, DecodeError>(v),
{
    lemma_i64_round_trip(v);
}

impl Type for Oid {
    open spec fn spec_type_info() -> LazyTypeInfoView {
        PgBuiltinType::Oid.spec_lazy()
    }

    open spec fn spec_compatible(ty: TypeInfoView) -> bool {
        ty.oid == PgBuiltinType::Oid.spec_oid()
    }

    fn type_info() -> (r: LazyPgTypeInfo) {
        PgBuiltinType::Oid.lazy()
    }

    fn compatible(ty: &PgTypeInfo) -> (b: bool) {
        ty.oid.0 == PgBuiltinType::Oid.oid().0
    }
}

impl Encode for Oid {
    open spec fn encode_spec(&self, before: ArgumentBufferView) -> ArgumentBufferView {
        before.extend(u32_be_bytes(self.0 as int))
    }

    open spec fn null_spec(&self) -> IsNull {
        IsNull::No
    }

    fn encode_by_ref(&self, buf: &mut PgArgumentBuffer) -> (r: IsNull) {
        buf.put_u32(self.0);
        IsNull::No
    }
}

} // verus!
