//! The errors of the library.

use vstd::prelude::*;
use crate::catalog::GetPgTypeError;
use crate::type_info::{Oid, PgTypeRef, TypeRefView};

verus! {

/// Why a hexadecimal text is not a byte string.
#[derive(PartialEq, Eq, Structural, Clone, Copy, Debug)]
pub enum HexError {
    /// The character `c` at `index` is not a hexadecimal digit.
    InvalidHexCharacter { c: char, index: usize },
    /// The text has an odd number of digits.
    OddLength,
    /// The text does not have the length of the container it was meant for.
    InvalidStringLength,
}

/// Why a value could not be decoded.
#[derive(PartialEq, Eq, Structural, Clone, Copy, Debug)]
pub enum DecodeError {
    /// The value is NULL and the target has no NULL.
    UnexpectedNull,
    /// The value has fewer bytes than its type has.
    UnexpectedLength,
    /// The text of the value is not UTF-8.
    InvalidUtf8,
    /// The text is neither `t` nor `f`.
    InvalidBool,
    /// The text is not a decimal number of the target type.
    InvalidNumber,
    /// The text after the two-character prefix is not hexadecimal.
    InvalidHex(HexError),
    /// A byte string in text format cannot be borrowed: it has to be decoded
    /// into an owned value.
    TextNotBorrowable,
    /// The bits of a number are asked of a value in text format, which holds
    /// a decimal rendering and no bits.
    TextHasNoBits,
    /// The binary form has a version marker other than 1.
    UnsupportedJsonbVersion(u8),
    /// The record has no field at this index.
    NoField { index: usize },
    /// The type of the record element at `index` does not resolve.
    UnresolvedElementType { index: usize, oid: Oid, error: GetPgTypeError },
    /// The element's type on the wire is not the type that the composite
    /// type declares for the field.
    CompositeMismatch,
    /// The value being decoded as a record is not of a composite type.
    NotComposite,
    /// The type of the value on the wire is not compatible with the target.
    MismatchedType { oid: Oid },
    /// The boundaries of the record's fields do not fit its bytes.
    MalformedRecord,
}

/// Why an operation of the connection failed.
#[derive(Debug)]
pub enum Error {
    /// The type does not resolve, whatever was tried.
    TypeNotFound { typ: PgTypeRef },
    /// The transport or the protocol failed; the message is handed through.
    Protocol(String),
}

/// An error as plain values.
pub enum ErrorView {
    TypeNotFound { typ: TypeRefView },
    Protocol(Seq<char>),
}

impl View for Error {
    type V = ErrorView;

    open spec fn view(&self) -> ErrorView {
        match self {
            Error::TypeNotFound { typ } => ErrorView::TypeNotFound { typ: typ@ },
            Error::Protocol(message) => ErrorView::Protocol(message@),
        }
    }
}

} // verus!
