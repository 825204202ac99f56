//! A value as it arrives from the server: its bytes, its format and its type.

use vstd::prelude::*;
use vstd::slice::slice_subrange;
use vstd::utf8::{decode_utf8, valid_utf8};
use crate::catalog::{CatalogView, LocalPgCatalog};
use crate::error::DecodeError;
use crate::type_info::{PgTypeInfo, TypeInfoView};
use crate::wire::{be_i32, get_i32, i32_be_bytes, lemma_i32_round_trip};

verus! {

/// The encoding of a value on the wire. It belongs to the exchange, not to
/// the type.
#[derive(PartialEq, Eq, Structural, Clone, Copy, Debug)]
pub enum PgValueFormat {
    Text,
    Binary,
}

/// A value to decode. `value` is `None` for NULL. The catalog is the one of
/// the connection that the value came over; the types of nested values are
/// looked up in it.
pub struct PgValueRef<'r> {
    pub value: Option<&'r [u8]>,
    pub type_info: &'r PgTypeInfo,
    pub format: PgValueFormat,
    pub catalog: &'r LocalPgCatalog,
}

/// A value as plain values.
pub struct ValueView {
    pub value: Option<Seq<u8>>,
    pub type_info: TypeInfoView,
    pub format: PgValueFormat,
    pub catalog: CatalogView,
}

impl<'r> View for PgValueRef<'r> {
    type V = ValueView;

    open spec fn view(&self) -> ValueView {
        ValueView {
            value: match self.value {
                Some(bytes) => Some(bytes@),
                None => None,
            },
            type_info: self.type_info@,
            format: self.format,
            catalog: self.catalog@,
        }
    }
}

/// `core::str::from_utf8`: the text that the bytes encode, where they are
/// well-formed UTF-8, and nothing otherwise.
#[verifier::external_body]
pub(crate) fn str_from_utf8<'a>(bytes: &'a [u8]) -> (r: Option<&'a str>)
    ensures
        r is Some <==> valid_utf8(bytes@),
        r matches Some(s) ==> s@ == decode_utf8(bytes@),
{
    core::str::from_utf8(bytes).ok()
}

impl ValueView {
    /// The bytes of a value that is not NULL.
    pub open spec fn bytes(self) -> Result<Seq<u8>, DecodeError> {
        match self.value {
            Some(bytes) => Ok(bytes),
            None => Err(DecodeError::UnexpectedNull),
        }
    }

    /// The text of a value that is not NULL and is UTF-8.
    pub open spec fn text(self) -> Result<Seq<char>, DecodeError> {
        match self.value {
            Some(bytes) => if valid_utf8(bytes) {
                Ok(decode_utf8(bytes))
            } else {
                Err(DecodeError::InvalidUtf8)
            },
            None => Err(DecodeError::UnexpectedNull),
        }
    }
}

impl<'r> PgValueRef<'r> {
    /// The format that the value is encoded in.
    pub fn format(&self) -> (r: PgValueFormat)
        ensures
            r == self.format,
    {
        self.format
    }

    /// Whether the value is NULL.
    pub fn is_null(&self) -> (r: bool)
        ensures
            r == (self@.value is None),
    {
        self.value.is_none()
    }

    /// The bytes of the value; NULL has none.
    pub fn as_bytes(&self) -> (r: Result<&'r [u8], DecodeError>)
        ensures
            match self@.bytes() {
                Ok(bytes) => r matches Ok(b) && b@ == bytes,
                Err(e) => r matches Err(f) && f == e,
            },
    {
        match self.value {
            Some(bytes) => Ok(bytes),
            None => Err(DecodeError::UnexpectedNull),
        }
    }

    /// The text of the value; NULL has none, and the bytes must be UTF-8.
    pub fn as_str(&self) -> (r: Result<&'r str, DecodeError>)
        ensures
            match self@.text() {
                Ok(text) => r matches Ok(s) && s@ == text,
                Err(e) => r matches Err(f) && f == e,
            },
    {
        match self.value {
            Some(bytes) => match str_from_utf8(bytes) {
                Some(s) => Ok(s),
                None => Err(DecodeError::InvalidUtf8),
            },
            None => Err(DecodeError::UnexpectedNull),
        }
    }
}

/// Whether `buf` starts with a whole element: a length in four bytes, then
/// that many bytes, or the length -1 and nothing (NULL).
pub open spec fn element_fits(buf: Seq<u8>) -> bool {
    &&& buf.len() >= 4
    &&& be_i32(buf) >= -1
    &&& be_i32(buf) >= 0 ==> 4 + be_i32(buf) <= buf.len()
}

/// The bytes of the element that `buf` starts with; `None` for NULL.
pub open spec fn element_value(buf: Seq<u8>) -> Option<Seq<u8>> {
    if be_i32(buf) == -1 {
        None
    } else {
        Some(buf.subrange(4, 4 + be_i32(buf)))
    }
}

/// What follows the element that `buf` starts with.
pub open spec fn element_rest(buf: Seq<u8>) -> Seq<u8> {
    if be_i32(buf) == -1 {
        buf.skip(4)
    } else {
        buf.skip(4 + be_i32(buf))
    }
}

/// Splits the element that `buf` starts with from what follows it.
pub fn split_element<'r>(buf: &'r [u8]) -> (r: Result<(Option<&'r [u8]>, &'r [u8]), DecodeError>)
    ensures
        element_fits(buf@) ==> (r matches Ok((value, rest)) && rest@ == element_rest(buf@) && match value {
            Some(bytes) => element_value(buf@) == Some(bytes@),
            None => element_value(buf@) is None,
        }),
        !element_fits(buf@) ==> (r matches Err(e) && e == DecodeError::MalformedRecord),
{
    if buf.len() < 4 {
        return Err(DecodeError::MalformedRecord);
    }
    let len: i32 = get_i32(buf);
    if len == -1 {
        return Ok((None, slice_subrange(buf, 4, buf.len())));
    }
    if len < 0 {
        return Err(DecodeError::MalformedRecord);
    }
    let len: usize = len as usize;
    if buf.len() - 4 < len {
        return Err(DecodeError::MalformedRecord);
    }
    Ok((Some(slice_subrange(buf, 4, 4 + len)), slice_subrange(buf, 4 + len, buf.len())))
}

/// A value that is framed as an element is split off again as it was: the
/// length in four bytes, then the bytes, and after them whatever follows.
pub proof fn lemma_element_round_trip(bytes: Seq<u8>, rest: Seq<u8>)
    requires
        bytes.len() <= i32::MAX,
    ensures
        element_fits(i32_be_bytes(bytes.len() as i32) + bytes + rest),
        element_value(i32_be_bytes(bytes.len() as i32) + bytes + rest) == Some(bytes),
        element_rest(i32_be_bytes(bytes.len() as i32) + bytes + rest) == rest,
{
    let len = bytes.len() as i32;
    let buf = i32_be_bytes(len) + bytes + rest;
    lemma_i32_round_trip(len);
}

/// NULL that is framed as an element is split off again as NULL: the
/// length -1 in four bytes, and after it whatever follows.
pub proof fn lemma_null_element_round_trip(rest: Seq<u8>)
    ensures
        element_fits(i32_be_bytes(-1i32) + rest),
        element_value(i32_be_bytes(-1i32) + rest) is None,
        element_rest(i32_be_bytes(-1i32) + rest) == rest,
{
    let buf = i32_be_bytes(-1i32) + rest;
    lemma_i32_round_trip(-1i32);
}

} // verus!
