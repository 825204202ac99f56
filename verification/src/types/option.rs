//! Values that may be NULL.

use vstd::prelude::*;
use crate::arguments::{ArgumentBufferView, PgArgumentBuffer};
use crate::codec::{Decode, Encode, IsNull, Type};
use crate::error::DecodeError;
use crate::type_info::{LazyPgTypeInfo, LazyTypeInfoView, PgTypeInfo, TypeInfoView};
use crate::value::{PgValueRef, ValueView};

verus! {

/// A value of `T`, or NULL.
#[derive(Debug)]
pub struct Nullable<T>(pub Option<T>);

impl<T: View> View for Nullable<T> {
    type V = Option<T::V>;

    open spec fn view(&self) -> Option<T::V> {
        match self.0 {
            Some(v) => Some(v@),
            None => None,
        }
    }
}

impl<T: Type> Type for Nullable<T> {
    open spec fn spec_type_info() -> LazyTypeInfoView {
        T::spec_type_info()
    }

    open spec fn spec_compatible(ty: TypeInfoView) -> bool {
        T::spec_compatible(ty)
    }

    fn type_info() -> (r: LazyPgTypeInfo) {
        T::type_info()
    }

    fn compatible(ty: &PgTypeInfo) -> (b: bool) {
        T::compatible(ty)
    }
}

impl<T: Encode> Encode for Nullable<T> {
    /// NULL writes nothing.
    open spec fn encode_spec(&self, before: ArgumentBufferView) -> ArgumentBufferView {
        match self.0 {
            Some(v) => v.encode_spec(before),
            None => before,
        }
    }

    open spec fn null_spec(&self) -> IsNull {
        match self.0 {
            Some(v) => v.null_spec(),
            None => IsNull::Yes,
        }
    }

    fn encode_by_ref(&self, buf: &mut PgArgumentBuffer) -> (r: IsNull) {
        match &self.0 {
            Some(v) => v.encode_by_ref(buf),
            None => IsNull::Yes,
        }
    }
}

impl<T: Decode> Decode for Nullable<T> {
    /// NULL is read as such; any other value is read as a `T`.
    open spec fn decoded(value: ValueView) -> Result<Option<T::V>, DecodeError> {
        match value.value {
            None => Ok(None),
            Some(_) => match T::decoded(value) {
                Ok(v) => Ok(Some(v)),
                Err(e) => Err(e),
            },
        }
    }

    fn decode(value: PgValueRef<'_>) -> (r: Result<Self, DecodeError>) {
        if value.is_null() {
            return Ok(Nullable(None));
        }
        match T::decode(value) {
            Ok(v) => Ok(Nullable(Some(v))),
            Err(e) => Err(e),
        }
    }
}

} // verus!
