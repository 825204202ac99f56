//! `()`: the result of a function that returns nothing.

use vstd::prelude::*;
use crate::builtin::PgBuiltinType;
use crate::codec::{Decode, Type};
use crate::error::DecodeError;
use crate::type_info::{LazyPgTypeInfo, LazyTypeInfoView, PgTypeInfo, TypeInfoView};
use crate::value::{PgValueRef, ValueView};

verus! {

impl Type for () {
    open spec fn spec_type_info() -> LazyTypeInfoView {
        PgBuiltinType::Void.spec_lazy()
    }

    /// A record is accepted too: the empty tuple is a record without fields.
    open spec fn spec_compatible(ty: TypeInfoView) -> bool {
        ty.oid == PgBuiltinType::Void.spec_oid() || ty.oid == PgBuiltinType::Record.spec_oid()
    }

    fn type_info() -> (r: LazyPgTypeInfo) {
        PgBuiltinType::Void.lazy()
    }

    fn compatible(ty: &PgTypeInfo) -> (b: bool) {
        ty.oid.0 == PgBuiltinType::Void.oid().0 || ty.oid.0 == PgBuiltinType::Record.oid().0
    }
}

impl Decode for () {
    /// Whatever the value holds, it decodes.
    open spec fn decoded(value: ValueView) -> Result<(), DecodeError> {
        Ok(())
    }

    fn decode(value: PgValueRef<'_>) -> (r: Result<Self, DecodeError>) {
        Ok(())
    }
}

} // verus!
