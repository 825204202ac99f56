//! Floating-point numbers as their bits. In binary a number travels as the
//! bits of its IEEE 754 form in network byte order; what number the bits
//! stand for, and the decimal rendering of the text format, is left to the
//! caller.

use vstd::prelude::*;
use crate::arguments::{ArgumentBufferView, PgArgumentBuffer};
use crate::builtin::PgBuiltinType;
use crate::codec::{Encode, IsNull, PgHasArrayType, Type};
use crate::error::DecodeError;
use crate::type_info::{LazyPgTypeInfo, LazyTypeInfoView, PgTypeInfo, TypeInfoView};
use crate::value::{PgValueFormat, PgValueRef, ValueView};
use crate::wire::{
    be_u32, be_u64, lemma_u32_round_trip, lemma_u64_round_trip, read_u32, read_u64, u32_be_bytes,
    u64_be_bytes,
};

verus! {

/// The 32 bits of a single-precision number.
#[derive(PartialEq, Eq, Structural, Clone, Copy, Debug)]
pub struct Float4Bits(pub u32);

/// The 64 bits of a double-precision number.
#[derive(PartialEq, Eq, Structural, Clone, Copy, Debug)]
pub struct Float8Bits(pub u64);

impl Type for Float4Bits {
    open spec fn spec_type_info() -> LazyTypeInfoView {
        PgBuiltinType::Float4.spec_lazy()
    }

    open spec fn spec_compatible(ty: TypeInfoView) -> bool {
        ty.oid == PgBuiltinType::Float4.spec_oid()
    }

    fn type_info() -> (r: LazyPgTypeInfo) {
        PgBuiltinType::Float4.lazy()
    }

    fn compatible(ty: &PgTypeInfo) -> (b: bool) {
        ty.oid.0 == PgBuiltinType::Float4.oid().0
    }
}

impl PgHasArrayType for Float4Bits {
    open spec fn spec_array_type_info() -> LazyTypeInfoView {
        PgBuiltinType::Float4Array.spec_lazy()
    }

    open spec fn spec_array_compatible(ty: TypeInfoView) -> bool {
        ty.oid == PgBuiltinType::Float4Array.spec_oid()
    }

    fn array_type_info() -> (r: LazyPgTypeInfo) {
        PgBuiltinType::Float4Array.lazy()
    }

    fn array_compatible(ty: &PgTypeInfo) -> (b: bool) {
        ty.oid.0 == PgBuiltinType::Float4Array.oid().0
    }
}

impl Encode for Float4Bits {
    open spec fn encode_spec(&self, before: ArgumentBufferView) -> ArgumentBufferView {
        before.extend(u32_be_bytes(self.0 as int))
    }

    open spec fn null_spec(&self) -> IsNull {
        IsNull::No
    }

    fn encode_by_ref(&self, buf: &mut PgArgumentBuffer) -> (r: IsNull) {
        buf.put_u32(self.0);
        IsNull::No
    }
}

/// The bits of a binary value: its first 4 bytes, most significant byte
/// first. A value in text format has no bits to give.
pub open spec fn decoded_float4_bits(value: ValueView) -> Result<Float4Bits, DecodeError> {
    match value.format {
        PgValueFormat::Text => Err(DecodeError::TextHasNoBits),
        PgValueFormat::Binary => match value.bytes() {
            Err(e) => Err(e),
            Ok(bytes) => if bytes.len() < 4 {
                Err(DecodeError::UnexpectedLength)
            } else {
                Ok(Float4Bits(be_u32(bytes) as u32))
            },
        },
    }
}

impl Float4Bits {
    /// Reads the bits of a binary value.
    pub fn decode_binary(value: PgValueRef<'_>) -> (r: Result<Self, DecodeError>)
        ensures
            r == decoded_float4_bits(value@),
    {
        match value.format() {
            PgValueFormat::Text => Err(DecodeError::TextHasNoBits),
            PgValueFormat::Binary => {
                let bytes = value.as_bytes()?;
                if bytes.len() < 4 {
                    return Err(DecodeError::UnexpectedLength);
                }
                Ok(Float4Bits(read_u32(bytes)))
            },
        }
    }
}

/// The bits that are written and read back in binary are the same bits,
/// whatever number they stand for.
pub proof fn lemma_float4_bits_binary_round_trip(v: Float4Bits, before: ArgumentBufferView, value: ValueView)
    requires
        value.format == PgValueFormat::Binary,
        value.value == Some(v.encode_spec(before).bytes.skip(before.bytes.len() as int)),
    ensures
        decoded_float4_bits(value) == Ok::<Float4Bits, DecodeError>(v),
{
    lemma_u32_round_trip(v.0 as int);
    assert(v.encode_spec(before).bytes.skip(before.bytes.len() as int) =~= u32_be_bytes(
        v.0 as int,
    ));
}

impl Type for Float8Bits {
    open spec fn spec_type_info() -> LazyTypeInfoView {
        PgBuiltinType::Float8.spec_lazy()
    }

    open spec fn spec_compatible(ty: TypeInfoView) -> bool {
        ty.oid == PgBuiltinType::Float8.spec_oid()
    }

    fn type_info() -> (r: LazyPgTypeInfo) {
        PgBuiltinType::Float8.lazy()
    }

    fn compatible(ty: &PgTypeInfo) -> (b: bool) {
        ty.oid.0 == PgBuiltinType::Float8.oid().0
    }
}

impl PgHasArrayType for Float8Bits {
    open spec fn spec_array_type_info() -> LazyTypeInfoView {
        PgBuiltinType::Float8Array.spec_lazy()
    }

    open spec fn spec_array_compatible(ty: TypeInfoView) -> bool {
        ty.oid == PgBuiltinType::Float8Array.spec_oid()
    }

    fn array_type_info() -> (r: LazyPgTypeInfo) {
        PgBuiltinType::Float8Array.lazy()
    }

    fn array_compatible(ty: &PgTypeInfo) -> (b: bool) {
        ty.oid.0 == PgBuiltinType::Float8Array.oid().0
    }
}

impl Encode for Float8Bits {
    open spec fn encode_spec(&self, before: ArgumentBufferView) -> ArgumentBufferView {
        before.extend(u64_be_bytes(self.0 as int))
    }

    open spec fn null_spec(&self) -> IsNull {
        IsNull::No
    }

    fn encode_by_ref(&self, buf: &mut PgArgumentBuffer) -> (r: IsNull) {
        buf.put_u64(self.0);
        IsNull::No
    }
}

/// The bits of a binary value: its first 8 bytes, most significant byte
/// first. A value in text format has no bits to give.
pub open spec fn decoded_float8_bits(value: ValueView) -> Result<Float8Bits, DecodeError> {
    match value.format {
        PgValueFormat::Text => Err(DecodeError::TextHasNoBits),
        PgValueFormat::Binary => match value.bytes() {
            Err(e) => Err(e),
            Ok(bytes) => if bytes.len() < 8 {
                Err(DecodeError::UnexpectedLength)
            } else {
                Ok(Float8Bits(be_u64(bytes) as u64))
            },
        },
    }
}

impl Float8Bits {
    /// Reads the bits of a binary value.
    pub fn decode_binary(value: PgValueRef<'_>) -> (r: Result<Self, DecodeError>)
        ensures
            r == decoded_float8_bits(value@),
    {
        match value.format() {
            PgValueFormat::Text => Err(DecodeError::TextHasNoBits),
            PgValueFormat::Binary => {
                let bytes = value.as_bytes()?;
                if bytes.len() < 8 {
                    return Err(DecodeError::UnexpectedLength);
                }
                Ok(Float8Bits(read_u64(bytes)))
            },
        }
    }
}

/// The bits that are written and read back in binary are the same bits,
/// whatever number they stand for.
pub proof fn lemma_float8_bits_binary_round_trip(v: Float8Bits, before: ArgumentBufferView, value: ValueView)
    requires
        value.format == PgValueFormat::Binary,
        value.value == Some(v.encode_spec(before).bytes.skip(before.bytes.len() as int)),
    ensures
        decoded_float8_bits(value) == Ok::<Float8Bits, DecodeError>(v),
{
    lemma_u64_round_trip(v.0 as int);
    assert(v.encode_spec(before).bytes.skip(before.bytes.len() as int) =~= u64_be_bytes(
        v.0 as int,
    ));
}

} // verus!
