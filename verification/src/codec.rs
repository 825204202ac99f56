//! What a Rust type has to offer to be sent to the server and read back.

use vstd::prelude::*;
use crate::arguments::{ArgumentBufferView, PgArgumentBuffer};
use crate::error::DecodeError;
use crate::type_info::{LazyPgTypeInfo, LazyTypeInfoView, PgTypeInfo, TypeInfoView};
use crate::value::{PgValueRef, ValueView};

verus! {

/// Whether an encoded value was NULL, in which case it wrote nothing.
#[derive(PartialEq, Eq, Structural, Clone, Copy, Debug)]
pub enum IsNull {
    Yes,
    No,
}

/// The server type of a Rust type.
pub trait Type: Sized {
    /// The type that values are sent as.
    spec fn spec_type_info() -> LazyTypeInfoView;

    /// Whether a value that the server declares as `ty` can be decoded into
    /// this Rust type.
    spec fn spec_compatible(ty: TypeInfoView) -> bool;

    fn type_info() -> (r: LazyPgTypeInfo)
        ensures
            r@ == Self::spec_type_info(),
    ;

    fn compatible(ty: &PgTypeInfo) -> (b: bool)
        ensures
            b == Self::spec_compatible(ty@),
    ;
}

/// The server type of arrays of a Rust type.
pub trait PgHasArrayType {
    spec fn spec_array_type_info() -> LazyTypeInfoView;

    spec fn spec_array_compatible(ty: TypeInfoView) -> bool;

    fn array_type_info() -> (r: LazyPgTypeInfo)
        ensures
            r@ == Self::spec_array_type_info(),
    ;

    fn array_compatible(ty: &PgTypeInfo) -> (b: bool)
        ensures
            b == Self::spec_array_compatible(ty@),
    ;
}

/// A type whose values can be written into an argument buffer.
pub trait Encode: Type {
    /// The buffer after the value was written into `before`.
    spec fn encode_spec(&self, before: ArgumentBufferView) -> ArgumentBufferView;

    /// Whether the value is NULL.
    spec fn null_spec(&self) -> IsNull;

    /// Writes the value at the end of the buffer. What the buffer held stays
    /// as it was.
    fn encode_by_ref(&self, buf: &mut PgArgumentBuffer) -> (r: IsNull)
        ensures
            final(buf)@ == self.encode_spec(old(buf)@),
            r == self.null_spec(),
            final(buf)@.extends(old(buf)@),
    ;
}

/// A type whose values can be read from what the server sent.
pub trait Decode: Type + View {
    /// What decoding `value` gives.
    spec fn decoded(value: ValueView) -> Result<Self::V, DecodeError>;

    fn decode(value: PgValueRef<'_>) -> (r: Result<Self, DecodeError>)
        requires
            value@.catalog.wf(),
        ensures
            match r {
                Ok(v) => Self::decoded(value@) == Ok::<Self::V, DecodeError>(v@),
                Err(e) => Self::decoded(value@) == Err::<Self::V, DecodeError>(e),
            },
    ;
}

} // verus!
