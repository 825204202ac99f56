//! What the ahead-of-time analysis of queries needs to know of the
//! database: how parameters are checked, and which Rust type stands for a
//! server type.

use vstd::prelude::*;
use crate::codec::Type;
use crate::type_info::{PgTypeInfo, TypeInfoView};
use crate::types::float::{Float4Bits, Float8Bits};
use crate::types::json::Json;

verus! {

/// How strictly the parameters of a query are checked when the query is
/// analysed ahead of time.
#[derive(PartialEq, Eq, Structural, Clone, Copy, Debug)]
pub enum ParamChecking {
    /// The type of each argument must be compatible with the parameter's.
    Strong,
    /// Only the number of arguments is checked.
    Weak,
}

/// The Rust type that results of the server type `info` are read into: the
/// first of `()`, `bool`, `String`, `i8`, `i16`, `i32`, `i64`, `f32`, `f64`,
/// `Vec<u8>` and `Json` that is compatible with it.
pub open spec fn return_type_of(info: TypeInfoView) -> Option<Seq<char>> {
    if <() as Type>::spec_compatible(info) {
        Some("()"@)
    } else if <bool as Type>::spec_compatible(info) {
        Some("bool"@)
    } else if <String as Type>::spec_compatible(info) {
        Some("String"@)
    } else if <i8 as Type>::spec_compatible(info) {
        Some("i8"@)
    } else if <i16 as Type>::spec_compatible(info) {
        Some("i16"@)
    } else if <i32 as Type>::spec_compatible(info) {
        Some("i32"@)
    } else if <i64 as Type>::spec_compatible(info) {
        Some("i64"@)
    } else if <Float4Bits as Type>::spec_compatible(info) {
        Some("f32"@)
    } else if <Float8Bits as Type>::spec_compatible(info) {
        Some("f64"@)
    } else if <Vec<u8> as Type>::spec_compatible(info) {
        Some("Vec<u8>"@)
    } else if <Json as Type>::spec_compatible(info) {
        Some("Json"@)
    } else {
        None
    }
}

/// The name of the Rust type that results of the server type `info` are
/// read into, if the library has one.
pub fn return_type_for_id(info: &PgTypeInfo) -> (r: Option<&'static str>)
    ensures
        match return_type_of(info@) {
            Some(name) => r matches Some(s) && s@ == name,
            None => r is None,
        },
{
    if <() as Type>::compatible(info) {
        Some("()")
    } else if <bool as Type>::compatible(info) {
        Some("bool")
    } else if <String as Type>::compatible(info) {
        Some("String")
    } else if <i8 as Type>::compatible(info) {
        Some("i8")
    } else if <i16 as Type>::compatible(info) {
        Some("i16")
    } else if <i32 as Type>::compatible(info) {
        Some("i32")
    } else if <i64 as Type>::compatible(info) {
        Some("i64")
    } else if <Float4Bits as Type>::compatible(info) {
        Some("f32")
    } else if <Float8Bits as Type>::compatible(info) {
        Some("f64")
    } else if <Vec<u8> as Type>::compatible(info) {
        Some("Vec<u8>")
    } else if <Json as Type>::compatible(info) {
        Some("Json")
    } else {
        None
    }
}

/// The Rust type that arguments for a parameter of the server type `info`
/// are written as: a slice for a text and for a byte string, and otherwise
/// the type that results are read into.
pub open spec fn param_type_of(info: TypeInfoView) -> Option<Seq<char>> {
    if <String as Type>::spec_compatible(info) {
        Some("&str"@)
    } else if <Vec<u8> as Type>::spec_compatible(info) {
        Some("&[u8]"@)
    } else {
        return_type_of(info)
    }
}

/// The name of the Rust type that arguments for a parameter of the server
/// type `info` are written as, if the library has one.
pub fn param_type_for_id(info: &PgTypeInfo) -> (r: Option<&'static str>)
    ensures
        match param_type_of(info@) {
            Some(name) => r matches Some(s) && s@ == name,
            None => r is None,
        },
{
    if <String as Type>::compatible(info) {
        Some("&str")
    } else if <Vec<u8> as Type>::compatible(info) {
        Some("&[u8]")
    } else {
        return_type_for_id(info)
    }
}

} // verus!
