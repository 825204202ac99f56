//! `bool`: one byte in binary, `t` or `f` in text.

use vstd::prelude::*;
use crate::arguments::{ArgumentBufferView, PgArgumentBuffer};
use crate::builtin::PgBuiltinType;
use crate::codec::{Decode, Encode, IsNull, PgHasArrayType, Type};
use crate::error::DecodeError;
use crate::text::str_eq;
use crate::type_info::{LazyPgTypeInfo, LazyTypeInfoView, PgTypeInfo, TypeInfoView};
use crate::value::{PgValueFormat, PgValueRef, ValueView};

verus! {

impl Type for bool {
    open spec fn spec_type_info() -> LazyTypeInfoView {
        PgBuiltinType::Bool.spec_lazy()
    }

    open spec fn spec_compatible(ty: TypeInfoView) -> bool {
        ty.oid == PgBuiltinType::Bool.spec_oid()
    }

    fn type_info() -> (r: LazyPgTypeInfo) {
        PgBuiltinType::Bool.lazy()
    }

    fn compatible(ty: &PgTypeInfo) -> (b: bool) {
        ty.oid.0 == PgBuiltinType::Bool.oid().0
    }
}

impl PgHasArrayType for bool {
    open spec fn spec_array_type_info() -> LazyTypeInfoView {
        PgBuiltinType::BoolArray.spec_lazy()
    }

    open spec fn spec_array_compatible(ty: TypeInfoView) -> bool {
        ty.oid == PgBuiltinType::BoolArray.spec_oid()
    }

    fn array_type_info() -> (r: LazyPgTypeInfo) {
        PgBuiltinType::BoolArray.lazy()
    }

    fn array_compatible(ty: &PgTypeInfo) -> (b: bool) {
        ty.oid.0 == PgBuiltinType::BoolArray.oid().0
    }
}

/// The byte of a value: 1 for true, 0 for false.
pub open spec fn bool_byte(v: bool) -> u8 {
    if v {
        1
    } else {
        0
    }
}

impl Encode for bool {
    open spec fn encode_spec(&self, before: ArgumentBufferView) -> ArgumentBufferView {
        before.extend(seq![bool_byte(*self)])
    }

    open spec fn null_spec(&self) -> IsNull {
        IsNull::No
    }

    fn encode_by_ref(&self, buf: &mut PgArgumentBuffer) -> (r: IsNull) {
        buf.push(if *self { 1 } else { 0 });
        IsNull::No
    }
}

/// What decoding a value as `bool` gives. In binary the first byte counts,
/// and anything but 0 is true. In text `t` is true and `f` is false.
pub open spec fn decoded_bool(value: ValueView) -> Result<bool, DecodeError> {
    match value.format {
        PgValueFormat::Binary => match value.bytes() {
            Err(e) => Err(e),
            Ok(bytes) => if bytes.len() == 0 {
                Err(DecodeError::UnexpectedLength)
            } else {
                Ok(bytes[0] != 0)
            },
        },
        PgValueFormat::Text => match value.text() {
            Err(e) => Err(e),
            Ok(text) => if text == "t"@ {
                Ok(true)
            } else if text == "f"@ {
                Ok(false)
            } else {
                Err(DecodeError::InvalidBool)
            },
        },
    }
}

impl Decode for bool {
    open spec fn decoded(value: ValueView) -> Result<bool, DecodeError> {
        decoded_bool(value)
    }

    fn decode(value: PgValueRef<'_>) -> (r: Result<Self, DecodeError>) {
        match value.format() {
            PgValueFormat::Binary => {
                let bytes = value.as_bytes()?;
                if bytes.len() == 0 {
                    return Err(DecodeError::UnexpectedLength);
                }
                Ok(bytes[0] != 0)
            },
            PgValueFormat::Text => {
                let text = value.as_str()?;
                if str_eq(text, "t") {
                    Ok(true)
                } else if str_eq(text, "f") {
                    Ok(false)
                } else {
                    Err(DecodeError::InvalidBool)
                }
            },
        }
    }
}

/// A value that is written and read back in binary is the same value.
pub proof fn lemma_bool_binary_round_trip(v: bool, before: ArgumentBufferView, value: ValueView)
    requires
        value.format == PgValueFormat::Binary,
        value.value == Some(v.encode_spec(before).bytes.skip(before.bytes.len() as int)),
    ensures
        <bool as Decode>::decoded(value) == Ok::<bool, DecodeError>(v),
{
}

} // verus!
