//! Text: the UTF-8 bytes of the text, in both formats.

use vstd::prelude::*;
use vstd::utf8::{encode_utf8, encode_utf8_decode_utf8, encode_utf8_valid_utf8};
use crate::arguments::{ArgumentBufferView, PgArgumentBuffer};
use crate::builtin::PgBuiltinType;
use crate::codec::{Decode, Encode, IsNull, PgHasArrayType, Type};
use crate::error::DecodeError;
use crate::type_info::{LazyPgTypeInfo, LazyTypeInfoView, PgTypeInfo, TypeInfoView};
use crate::value::{PgValueRef, ValueView};

verus! {

impl Type for String {
    open spec fn spec_type_info() -> LazyTypeInfoView {
        PgBuiltinType::Text.spec_lazy()
    }

    /// Text, and values whose type the server does not know, such as the
    /// fields of a record in text format.
    open spec fn spec_compatible(ty: TypeInfoView) -> bool {
        ty.oid == PgBuiltinType::Text.spec_oid() || ty.oid == PgBuiltinType::Unknown.spec_oid()
    }

    fn type_info() -> (r: LazyPgTypeInfo) {
        PgBuiltinType::Text.lazy()
    }

    fn compatible(ty: &PgTypeInfo) -> (b: bool) {
        ty.oid.0 == PgBuiltinType::Text.oid().0 || ty.oid.0 == PgBuiltinType::Unknown.oid().0
    }
}

impl PgHasArrayType for String {
    open spec fn spec_array_type_info() -> LazyTypeInfoView {
        PgBuiltinType::TextArray.spec_lazy()
    }

    open spec fn spec_array_compatible(ty: TypeInfoView) -> bool {
        ty.oid == PgBuiltinType::TextArray.spec_oid()
    }

    fn array_type_info() -> (r: LazyPgTypeInfo) {
        PgBuiltinType::TextArray.lazy()
    }

    fn array_compatible(ty: &PgTypeInfo) -> (b: bool) {
        ty.oid.0 == PgBuiltinType::TextArray.oid().0
    }
}

impl Encode for String {
    open spec fn encode_spec(&self, before: ArgumentBufferView) -> ArgumentBufferView {
        before.extend(encode_utf8(self@))
    }

    open spec fn null_spec(&self) -> IsNull {
        IsNull::No
    }

    fn encode_by_ref(&self, buf: &mut PgArgumentBuffer) -> (r: IsNull) {
        buf.extend(self.as_str().as_bytes());
        IsNull::No
    }
}

impl Decode for String {
    open spec fn decoded(value: ValueView) -> Result<Seq<char>, DecodeError> {
        value.text()
    }

    fn decode(value: PgValueRef<'_>) -> (r: Result<Self, DecodeError>) {
        let text = value.as_str()?;
        Ok(text.to_owned())
    }
}

/// A text that is written and read back is the same text, in either format.
pub proof fn lemma_string_round_trip(v: String, before: ArgumentBufferView, value: ValueView)
    requires
        value.value == Some(v.encode_spec(before).bytes.skip(before.bytes.len() as int)),
    ensures
        <String as Decode>::decoded(value) == Ok::<Seq<char>, DecodeError>(v@),
{
    assert(v.encode_spec(before).bytes.skip(before.bytes.len() as int) =~= encode_utf8(v@));
    encode_utf8_valid_utf8(v@);
    encode_utf8_decode_utf8(v@);
}

} // verus!
