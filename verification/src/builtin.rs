//! The registry of the types that every server has, with their fixed
//! identifiers.

use vstd::prelude::*;
use crate::type_info::{
    LazyPgTypeInfo, LazyTypeInfoView, Oid, PgTypeInfo, PgTypeKind, PgTypeRef, TypeInfoView,
    TypeKindView, TypeRefView,
};

verus! {

/// A type that every server has under a fixed identifier.
#[derive(PartialEq, Eq, Structural, Clone, Copy, Debug)]
pub enum PgBuiltinType {
    Bool,
    Bytea,
    Char,
    Int8,
    Int2,
    Int4,
    Text,
    Oid,
    Json,
    Float4,
    Float8,
    Unknown,
    Record,
    Void,
    Jsonb,
    BoolArray,
    ByteaArray,
    CharArray,
    Int2Array,
    Int4Array,
    TextArray,
    Int8Array,
    Float4Array,
    Float8Array,
    OidArray,
    JsonArray,
    RecordArray,
    JsonbArray,
}

impl PgBuiltinType {
    /// The identifier of the type.
    pub open spec fn spec_oid(self) -> u32 {
        match self {
            PgBuiltinType::Bool => 16,
            PgBuiltinType::Bytea => 17,
            PgBuiltinType::Char => 18,
            PgBuiltinType::Int8 => 20,
            PgBuiltinType::Int2 => 21,
            PgBuiltinType::Int4 => 23,
            PgBuiltinType::Text => 25,
            PgBuiltinType::Oid => 26,
            PgBuiltinType::Json => 114,
            PgBuiltinType::Float4 => 700,
            PgBuiltinType::Float8 => 701,
            PgBuiltinType::Unknown => 705,
            PgBuiltinType::Record => 2249,
            PgBuiltinType::Void => 2278,
            PgBuiltinType::Jsonb => 3802,
            PgBuiltinType::BoolArray => 1000,
            PgBuiltinType::ByteaArray => 1001,
            PgBuiltinType::CharArray => 1002,
            PgBuiltinType::Int2Array => 1005,
            PgBuiltinType::Int4Array => 1007,
            PgBuiltinType::TextArray => 1009,
            PgBuiltinType::Int8Array => 1016,
            PgBuiltinType::Float4Array => 1021,
            PgBuiltinType::Float8Array => 1022,
            PgBuiltinType::OidArray => 1028,
            PgBuiltinType::JsonArray => 199,
            PgBuiltinType::RecordArray => 2287,
            PgBuiltinType::JsonbArray => 3807,
        }
    }

    /// The element type, for the array types.
    pub open spec fn spec_element(self) -> Option<PgBuiltinType> {
        match self {
            PgBuiltinType::BoolArray => Some(PgBuiltinType::Bool),
            PgBuiltinType::ByteaArray => Some(PgBuiltinType::Bytea),
            PgBuiltinType::CharArray => Some(PgBuiltinType::Char),
            PgBuiltinType::Int2Array => Some(PgBuiltinType::Int2),
            PgBuiltinType::Int4Array => Some(PgBuiltinType::Int4),
            PgBuiltinType::TextArray => Some(PgBuiltinType::Text),
            PgBuiltinType::Int8Array => Some(PgBuiltinType::Int8),
            PgBuiltinType::Float4Array => Some(PgBuiltinType::Float4),
            PgBuiltinType::Float8Array => Some(PgBuiltinType::Float8),
            PgBuiltinType::OidArray => Some(PgBuiltinType::Oid),
            PgBuiltinType::JsonArray => Some(PgBuiltinType::Json),
            PgBuiltinType::RecordArray => Some(PgBuiltinType::Record),
            PgBuiltinType::JsonbArray => Some(PgBuiltinType::Jsonb),
            _ => None,
        }
    }

    /// The name of the type in the server's catalog.
    pub open spec fn spec_name(self) -> Seq<char> {
        match self {
            PgBuiltinType::Bool => "bool"@,
            PgBuiltinType::Bytea => "bytea"@,
            PgBuiltinType::Char => "char"@,
            PgBuiltinType::Int8 => "int8"@,
            PgBuiltinType::Int2 => "int2"@,
            PgBuiltinType::Int4 => "int4"@,
            PgBuiltinType::Text => "text"@,
            PgBuiltinType::Oid => "oid"@,
            PgBuiltinType::Json => "json"@,
            PgBuiltinType::Float4 => "float4"@,
            PgBuiltinType::Float8 => "float8"@,
            PgBuiltinType::Unknown => "unknown"@,
            PgBuiltinType::Record => "record"@,
            PgBuiltinType::Void => "void"@,
            PgBuiltinType::Jsonb => "jsonb"@,
            PgBuiltinType::BoolArray => "_bool"@,
            PgBuiltinType::ByteaArray => "_bytea"@,
            PgBuiltinType::CharArray => "_char"@,
            PgBuiltinType::Int2Array => "_int2"@,
            PgBuiltinType::Int4Array => "_int4"@,
            PgBuiltinType::TextArray => "_text"@,
            PgBuiltinType::Int8Array => "_int8"@,
            PgBuiltinType::Float4Array => "_float4"@,
            PgBuiltinType::Float8Array => "_float8"@,
            PgBuiltinType::OidArray => "_oid"@,
            PgBuiltinType::JsonArray => "_json"@,
            PgBuiltinType::RecordArray => "_record"@,
            PgBuiltinType::JsonbArray => "_jsonb"@,
        }
    }

    /// The identifier of the type.
    #[verifier::when_used_as_spec(spec_oid_value)]
    pub fn oid(self) -> (r: Oid)
        ensures
            r.0 == self.spec_oid(),
    {
        match self {
            PgBuiltinType::Bool => Oid(16),
            PgBuiltinType::Bytea => Oid(17),
            PgBuiltinType::Char => Oid(18),
            PgBuiltinType::Int8 => Oid(20),
            PgBuiltinType::Int2 => Oid(21),
            PgBuiltinType::Int4 => Oid(23),
            PgBuiltinType::Text => Oid(25),
            PgBuiltinType::Oid => Oid(26),
            PgBuiltinType::Json => Oid(114),
            PgBuiltinType::Float4 => Oid(700),
            PgBuiltinType::Float8 => Oid(701),
            PgBuiltinType::Unknown => Oid(705),
            PgBuiltinType::Record => Oid(2249),
            PgBuiltinType::Void => Oid(2278),
            PgBuiltinType::Jsonb => Oid(3802),
            PgBuiltinType::BoolArray => Oid(1000),
            PgBuiltinType::ByteaArray => Oid(1001),
            PgBuiltinType::CharArray => Oid(1002),
            PgBuiltinType::Int2Array => Oid(1005),
            PgBuiltinType::Int4Array => Oid(1007),
            PgBuiltinType::TextArray => Oid(1009),
            PgBuiltinType::Int8Array => Oid(1016),
            PgBuiltinType::Float4Array => Oid(1021),
            PgBuiltinType::Float8Array => Oid(1022),
            PgBuiltinType::OidArray => Oid(1028),
            PgBuiltinType::JsonArray => Oid(199),
            PgBuiltinType::RecordArray => Oid(2287),
            PgBuiltinType::JsonbArray => Oid(3807),
        }
    }

    /// The identifier of the type, as the executable function gives it.
    pub open spec fn spec_oid_value(self) -> Oid {
        Oid(self.spec_oid())
    }

    /// The element type, for the array types.
    pub fn element(self) -> (r: Option<PgBuiltinType>)
        ensures
            r == self.spec_element(),
    {
        match self {
            PgBuiltinType::BoolArray => Some(PgBuiltinType::Bool),
            PgBuiltinType::ByteaArray => Some(PgBuiltinType::Bytea),
            PgBuiltinType::CharArray => Some(PgBuiltinType::Char),
            PgBuiltinType::Int2Array => Some(PgBuiltinType::Int2),
            PgBuiltinType::Int4Array => Some(PgBuiltinType::Int4),
            PgBuiltinType::TextArray => Some(PgBuiltinType::Text),
            PgBuiltinType::Int8Array => Some(PgBuiltinType::Int8),
            PgBuiltinType::Float4Array => Some(PgBuiltinType::Float4),
            PgBuiltinType::Float8Array => Some(PgBuiltinType::Float8),
            PgBuiltinType::OidArray => Some(PgBuiltinType::Oid),
            PgBuiltinType::JsonArray => Some(PgBuiltinType::Json),
            PgBuiltinType::RecordArray => Some(PgBuiltinType::Record),
            PgBuiltinType::JsonbArray => Some(PgBuiltinType::Jsonb),
            _ => None,
        }
    }

    /// The name of the type in the server's catalog.
    pub fn name(self) -> (r: &'static str)
        ensures
            r@ == self.spec_name(),
    {
        match self {
            PgBuiltinType::Bool => "bool",
            PgBuiltinType::Bytea => "bytea",
            PgBuiltinType::Char => "char",
            PgBuiltinType::Int8 => "int8",
            PgBuiltinType::Int2 => "int2",
            PgBuiltinType::Int4 => "int4",
            PgBuiltinType::Text => "text",
            PgBuiltinType::Oid => "oid",
            PgBuiltinType::Json => "json",
            PgBuiltinType::Float4 => "float4",
            PgBuiltinType::Float8 => "float8",
            PgBuiltinType::Unknown => "unknown",
            PgBuiltinType::Record => "record",
            PgBuiltinType::Void => "void",
            PgBuiltinType::Jsonb => "jsonb",
            PgBuiltinType::BoolArray => "_bool",
            PgBuiltinType::ByteaArray => "_bytea",
            PgBuiltinType::CharArray => "_char",
            PgBuiltinType::Int2Array => "_int2",
            PgBuiltinType::Int4Array => "_int4",
            PgBuiltinType::TextArray => "_text",
            PgBuiltinType::Int8Array => "_int8",
            PgBuiltinType::Float4Array => "_float4",
            PgBuiltinType::Float8Array => "_float8",
            PgBuiltinType::OidArray => "_oid",
            PgBuiltinType::JsonArray => "_json",
            PgBuiltinType::RecordArray => "_record",
            PgBuiltinType::JsonbArray => "_jsonb",
        }
    }

    /// The kind of the type: an array of its element type, a pseudo-type
    /// for `void`, and an opaque scalar otherwise.
    pub open spec fn spec_kind(self) -> TypeKindView {
        match self.spec_element() {
            Some(element) => TypeKindView::Array(element.spec_oid()),
            None => if self == PgBuiltinType::Void {
                TypeKindView::Pseudo
            } else {
                TypeKindView::Simple
            },
        }
    }

    /// The type as the catalog holds it.
    pub open spec fn describe(self) -> TypeInfoView {
        TypeInfoView { oid: self.spec_oid(), name: self.spec_name(), kind: self.spec_kind() }
    }

    /// The type as a value names it before anything is resolved: a reference
    /// by identifier.
    pub open spec fn spec_lazy(self) -> LazyTypeInfoView {
        LazyTypeInfoView::Ref(TypeRefView::Oid(self.spec_oid()))
    }

    /// The type as a value names it before anything is resolved.
    pub fn lazy(self) -> (r: LazyPgTypeInfo)
        ensures
            r@ == self.spec_lazy(),
    {
        LazyPgTypeInfo::Ref(PgTypeRef::Oid(self.oid()))
    }

    /// The type as the catalog holds it.
    pub fn type_info(self) -> (r: PgTypeInfo)
        ensures
            r@ == self.describe(),
    {
        let kind = match self.element() {
            Some(element) => PgTypeKind::Array(element.oid()),
            None => match self {
                PgBuiltinType::Void => PgTypeKind::Pseudo,
                _ => PgTypeKind::Simple,
            },
        };
        PgTypeInfo { oid: self.oid(), name: self.name().to_owned(), kind }
    }

    /// Every built-in type, each element type before its array type.
    pub open spec fn spec_all() -> Seq<PgBuiltinType> {
        seq![
            PgBuiltinType::Bool,
            PgBuiltinType::Bytea,
            PgBuiltinType::Char,
            PgBuiltinType::Int8,
            PgBuiltinType::Int2,
            PgBuiltinType::Int4,
            PgBuiltinType::Text,
            PgBuiltinType::Oid,
            PgBuiltinType::Json,
            PgBuiltinType::Float4,
            PgBuiltinType::Float8,
            PgBuiltinType::Unknown,
            PgBuiltinType::Record,
            PgBuiltinType::Void,
            PgBuiltinType::Jsonb,
            PgBuiltinType::BoolArray,
            PgBuiltinType::ByteaArray,
            PgBuiltinType::CharArray,
            PgBuiltinType::Int2Array,
            PgBuiltinType::Int4Array,
            PgBuiltinType::TextArray,
            PgBuiltinType::Int8Array,
            PgBuiltinType::Float4Array,
            PgBuiltinType::Float8Array,
            PgBuiltinType::OidArray,
            PgBuiltinType::JsonArray,
            PgBuiltinType::RecordArray,
            PgBuiltinType::JsonbArray,
        ]
    }

    /// The position of the type in `spec_all`.
    pub open spec fn spec_index(self) -> int {
        match self {
            PgBuiltinType::Bool => 0,
            PgBuiltinType::Bytea => 1,
            PgBuiltinType::Char => 2,
            PgBuiltinType::Int8 => 3,
            PgBuiltinType::Int2 => 4,
            PgBuiltinType::Int4 => 5,
            PgBuiltinType::Text => 6,
            PgBuiltinType::Oid => 7,
            PgBuiltinType::Json => 8,
            PgBuiltinType::Float4 => 9,
            PgBuiltinType::Float8 => 10,
            PgBuiltinType::Unknown => 11,
            PgBuiltinType::Record => 12,
            PgBuiltinType::Void => 13,
            PgBuiltinType::Jsonb => 14,
            PgBuiltinType::BoolArray => 15,
            PgBuiltinType::ByteaArray => 16,
            PgBuiltinType::CharArray => 17,
            PgBuiltinType::Int2Array => 18,
            PgBuiltinType::Int4Array => 19,
            PgBuiltinType::TextArray => 20,
            PgBuiltinType::Int8Array => 21,
            PgBuiltinType::Float4Array => 22,
            PgBuiltinType::Float8Array => 23,
            PgBuiltinType::OidArray => 24,
            PgBuiltinType::JsonArray => 25,
            PgBuiltinType::RecordArray => 26,
            PgBuiltinType::JsonbArray => 27,
        }
    }

    /// Every built-in type, each element type before its array type.
    pub fn all() -> (r: Vec<PgBuiltinType>)
        ensures
            r@ == Self::spec_all(),
    {
        let r = vec![
            PgBuiltinType::Bool,
            PgBuiltinType::Bytea,
            PgBuiltinType::Char,
            PgBuiltinType::Int8,
            PgBuiltinType::Int2,
            PgBuiltinType::Int4,
            PgBuiltinType::Text,
            PgBuiltinType::Oid,
            PgBuiltinType::Json,
            PgBuiltinType::Float4,
            PgBuiltinType::Float8,
            PgBuiltinType::Unknown,
            PgBuiltinType::Record,
            PgBuiltinType::Void,
            PgBuiltinType::Jsonb,
            PgBuiltinType::BoolArray,
            PgBuiltinType::ByteaArray,
            PgBuiltinType::CharArray,
            PgBuiltinType::Int2Array,
            PgBuiltinType::Int4Array,
            PgBuiltinType::TextArray,
            PgBuiltinType::Int8Array,
            PgBuiltinType::Float4Array,
            PgBuiltinType::Float8Array,
            PgBuiltinType::OidArray,
            PgBuiltinType::JsonArray,
            PgBuiltinType::RecordArray,
            PgBuiltinType::JsonbArray,
        ];
        r
    }

    /// `spec_all` holds every built-in type, at its index.
    pub proof fn lemma_all_complete(self)
        ensures
            0 <= self.spec_index() < Self::spec_all().len(),
            Self::spec_all()[self.spec_index()] == self,
    {
    }

    /// No two built-in types share an identifier.
    pub proof fn lemma_oid_unique(self, other: PgBuiltinType)
        requires
            self.spec_oid() == other.spec_oid(),
        ensures
            self == other,
    {
    }
}

} // verus!
