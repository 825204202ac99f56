//! JSON values. The library frames the text of a JSON value; it neither
//! writes nor reads the text itself.

use vstd::prelude::*;
use vstd::slice::{slice_subrange, slice_to_vec};
use crate::arguments::{ArgumentBufferView, PgArgumentBuffer, PgPatch};
use crate::builtin::PgBuiltinType;
use crate::codec::{Decode, Encode, IsNull, PgHasArrayType, Type};
use crate::error::DecodeError;
use crate::type_info::{
    LazyPgTypeInfo, LazyTypeInfoView, PgTypeInfo, PgTypeKind, TypeInfoView, TypeKindView,
};
use crate::value::{PgValueFormat, PgValueRef, ValueView};

verus! {

/// The text of a JSON value.
#[derive(Debug)]
pub struct Json(pub Vec<u8>);

impl View for Json {
    type V = Seq<u8>;

    open spec fn view(&self) -> Seq<u8> {
        self.0@
    }
}

/// Whether an identifier is that of the textual or of the binary JSON type.
pub open spec fn is_json_oid(oid: u32) -> bool {
    oid == PgBuiltinType::Json.spec_oid() || oid == PgBuiltinType::Jsonb.spec_oid()
}

impl Type for Json {
    /// Values are sent as the binary JSON type.
    open spec fn spec_type_info() -> LazyTypeInfoView {
        PgBuiltinType::Jsonb.spec_lazy()
    }

    open spec fn spec_compatible(ty: TypeInfoView) -> bool {
        is_json_oid(ty.oid)
    }

    fn type_info() -> (r: LazyPgTypeInfo) {
        PgBuiltinType::Jsonb.lazy()
    }

    fn compatible(ty: &PgTypeInfo) -> (b: bool) {
        ty.oid.0 == PgBuiltinType::Json.oid().0 || ty.oid.0 == PgBuiltinType::Jsonb.oid().0
    }
}

impl PgHasArrayType for Json {
    open spec fn spec_array_type_info() -> LazyTypeInfoView {
        PgBuiltinType::JsonbArray.spec_lazy()
    }

    /// An array whose elements are of one of the two JSON types.
    open spec fn spec_array_compatible(ty: TypeInfoView) -> bool {
        ty.kind matches TypeKindView::Array(element) && is_json_oid(element)
    }

    fn array_type_info() -> (r: LazyPgTypeInfo) {
        PgBuiltinType::JsonbArray.lazy()
    }

    fn array_compatible(ty: &PgTypeInfo) -> (b: bool) {
        match &ty.kind {
            PgTypeKind::Array(element) => element.0 == PgBuiltinType::Json.oid().0 || element.0
                == PgBuiltinType::Jsonb.oid().0,
            _ => false,
        }
    }
}

impl Encode for Json {
    /// The version marker 1 and then the text. The marker is what the binary
    /// JSON type wants; a patch is recorded that turns it into a space where
    /// the parameter turns out to be of the textual JSON type.
    open spec fn encode_spec(&self, before: ArgumentBufferView) -> ArgumentBufferView {
        before.with_patch(PgPatch::JsonVersion).extend(seq![1u8]).extend(self@)
    }

    open spec fn null_spec(&self) -> IsNull {
        IsNull::No
    }

    fn encode_by_ref(&self, buf: &mut PgArgumentBuffer) -> (r: IsNull) {
        buf.patch(PgPatch::JsonVersion);
        buf.push(1);
        buf.extend(self.0.as_slice());
        proof {
            let marked = old(buf)@.with_patch(PgPatch::JsonVersion).extend(seq![1u8]);
            assert(old(buf)@.bytes.is_prefix_of(marked.bytes));
            assert(marked.bytes.is_prefix_of(buf@.bytes));
        }
        IsNull::No
    }
}

/// The text of a JSON value on the wire. A binary value of the binary JSON
/// type starts with the version marker 1, which is taken off; every other
/// value is the text as it is.
pub open spec fn decoded_json(value: ValueView) -> Result<Seq<u8>, DecodeError> {
    match value.bytes() {
        Err(e) => Err(e),
        Ok(bytes) => if value.format == PgValueFormat::Binary && value.type_info.oid
            == PgBuiltinType::Jsonb.spec_oid() {
            if bytes.len() == 0 {
                Err(DecodeError::UnexpectedLength)
            } else if bytes[0] != 1 {
                Err(DecodeError::UnsupportedJsonbVersion(bytes[0]))
            } else {
                Ok(bytes.skip(1))
            }
        } else {
            Ok(bytes)
        },
    }
}

impl Decode for Json {
    open spec fn decoded(value: ValueView) -> Result<Seq<u8>, DecodeError> {
        decoded_json(value)
    }

    fn decode(value: PgValueRef<'_>) -> (r: Result<Self, DecodeError>) {
        let mut buf = value.as_bytes()?;
        let binary = match value.format() {
            PgValueFormat::Binary => true,
            PgValueFormat::Text => false,
        };
        if binary && value.type_info.oid.0 == PgBuiltinType::Jsonb.oid().0 {
            if buf.len() == 0 {
                return Err(DecodeError::UnexpectedLength);
            }
            if buf[0] != 1 {
                return Err(DecodeError::UnsupportedJsonbVersion(buf[0]));
            }
            buf = slice_subrange(buf, 1, buf.len());
        }
        Ok(Json(slice_to_vec(buf)))
    }
}

/// A JSON text that is written and read back as a binary value of the
/// binary JSON type is the same text.
pub proof fn lemma_json_binary_round_trip(v: Json, before: ArgumentBufferView, value: ValueView)
    requires
        value.format == PgValueFormat::Binary,
        value.type_info.oid == PgBuiltinType::Jsonb.spec_oid(),
        value.value == Some(v.encode_spec(before).bytes.skip(before.bytes.len() as int)),
    ensures
        <Json as Decode>::decoded(value) == Ok::<Seq<u8>, DecodeError>(v@),
{
    let written = v.encode_spec(before).bytes.skip(before.bytes.len() as int);
    assert(written.skip(1) =~= v@);
}

} // verus!
