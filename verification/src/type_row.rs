//! A row of the server's type catalog, and what kind of type it describes.

use vstd::prelude::*;
use crate::type_info::{Oid, PgTypeRef, TypeRefView};

verus! {

/// The kind of a type, as the column `typtype` of the server's type catalog
/// gives it in one character.
#[derive(PartialEq, Eq, Structural, Clone, Copy, Debug)]
pub enum TypType {
    Base,
    Composite,
    Domain,
    Enum,
    Pseudo,
    Range,
}

/// The kind that a `typtype` code stands for, if it is one.
pub open spec fn typ_type_of(code: int) -> Option<TypType> {
    if code == 0x62 {
        Some(TypType::Base)
    } else if code == 0x63 {
        Some(TypType::Composite)
    } else if code == 0x64 {
        Some(TypType::Domain)
    } else if code == 0x65 {
        Some(TypType::Enum)
    } else if code == 0x70 {
        Some(TypType::Pseudo)
    } else if code == 0x72 {
        Some(TypType::Range)
    } else {
        None
    }
}

impl TypType {
    /// The kind for the code `b`, `c`, `d`, `e`, `p` or `r`.
    pub fn try_from(t: u8) -> (r: Result<Self, ()>)
        ensures
            match typ_type_of(t as int) {
                Some(kind) => r == Ok::<Self, ()>(kind),
                None => r is Err,
            },
    {
        let t = match t {
            0x62 => TypType::Base,
            0x63 => TypType::Composite,
            0x64 => TypType::Domain,
            0x65 => TypType::Enum,
            0x70 => TypType::Pseudo,
            0x72 => TypType::Range,
            _ => {
                return Err(());
            },
        };
        Ok(t)
    }
}

/// The category of a type, as the column `typcategory` of the server's type
/// catalog gives it in one character.
#[derive(PartialEq, Eq, Structural, Clone, Copy, Debug)]
pub enum TypCategory {
    Array,
    Boolean,
    Composite,
    DateTime,
    Enum,
    Geometric,
    Network,
    Numeric,
    Pseudo,
    Range,
    String,
    Timespan,
    User,
    BitString,
    Unknown,
}

/// The category that a `typcategory` code stands for, if it is one.
pub open spec fn typ_category_of(code: int) -> Option<TypCategory> {
    if code == 0x41 {
        Some(TypCategory::Array)
    } else if code == 0x42 {
        Some(TypCategory::Boolean)
    } else if code == 0x43 {
        Some(TypCategory::Composite)
    } else if code == 0x44 {
        Some(TypCategory::DateTime)
    } else if code == 0x45 {
        Some(TypCategory::Enum)
    } else if code == 0x47 {
        Some(TypCategory::Geometric)
    } else if code == 0x49 {
        Some(TypCategory::Network)
    } else if code == 0x4e {
        Some(TypCategory::Numeric)
    } else if code == 0x50 {
        Some(TypCategory::Pseudo)
    } else if code == 0x52 {
        Some(TypCategory::Range)
    } else if code == 0x53 {
        Some(TypCategory::String)
    } else if code == 0x54 {
        Some(TypCategory::Timespan)
    } else if code == 0x55 {
        Some(TypCategory::User)
    } else if code == 0x56 {
        Some(TypCategory::BitString)
    } else if code == 0x58 {
        Some(TypCategory::Unknown)
    } else {
        None
    }
}

impl TypCategory {
    /// The category for the code `A`, `B`, `C`, `D`, `E`, `G`, `I`, `N`,
    /// `P`, `R`, `S`, `T`, `U`, `V` or `X`.
    pub fn try_from(c: u8) -> (r: Result<Self, ()>)
        ensures
            match typ_category_of(c as int) {
                Some(category) => r == Ok::<Self, ()>(category),
                None => r is Err,
            },
    {
        let c = match c {
            0x41 => TypCategory::Array,
            0x42 => TypCategory::Boolean,
            0x43 => TypCategory::Composite,
            0x44 => TypCategory::DateTime,
            0x45 => TypCategory::Enum,
            0x47 => TypCategory::Geometric,
            0x49 => TypCategory::Network,
            0x4e => TypCategory::Numeric,
            0x50 => TypCategory::Pseudo,
            0x52 => TypCategory::Range,
            0x53 => TypCategory::String,
            0x54 => TypCategory::Timespan,
            0x55 => TypCategory::User,
            0x56 => TypCategory::BitString,
            0x58 => TypCategory::Unknown,
            _ => {
                return Err(());
            },
        };
        Ok(c)
    }
}

/// How a type is completed once its row is known.
#[derive(PartialEq, Eq, Structural, Clone, Copy, Debug)]
pub enum TypeDispatch {
    /// A domain over the row's base type; the base is resolved when it is
    /// needed.
    Domain,
    /// An array of the row's element type.
    Array,
    Pseudo,
    /// A range; its subtype has to be fetched.
    Range,
    /// An enum; its labels have to be fetched.
    Enum,
    /// A composite; the attributes of its relation have to be fetched.
    Composite,
    /// An opaque scalar.
    Simple,
}

/// The dispatch for a pair of codes. A domain is a domain whatever its
/// category. A base type of the array category is an array. Pseudo-types,
/// ranges, enums and composites are taken as such only where kind and
/// category agree. Everything else is a plain scalar.
pub open spec fn dispatch_of(typ_type: int, category: int) -> TypeDispatch {
    match (typ_type_of(typ_type), typ_category_of(category)) {
        (Some(TypType::Domain), _) => TypeDispatch::Domain,
        (Some(TypType::Base), Some(TypCategory::Array)) => TypeDispatch::Array,
        (Some(TypType::Pseudo), Some(TypCategory::Pseudo)) => TypeDispatch::Pseudo,
        (Some(TypType::Range), Some(TypCategory::Range)) => TypeDispatch::Range,
        (Some(TypType::Enum), Some(TypCategory::Enum)) => TypeDispatch::Enum,
        (Some(TypType::Composite), Some(TypCategory::Composite)) => TypeDispatch::Composite,
        _ => TypeDispatch::Simple,
    }
}

/// A row of the server's type catalog.
#[derive(Debug)]
pub struct PgTypeRow {
    pub oid: Oid,
    pub name: String,
    /// The code of the kind.
    pub typ_type: i8,
    /// The code of the category.
    pub category: i8,
    /// The relation that holds the attributes of a composite type.
    pub relation_id: Oid,
    /// The element type of an array type.
    pub element: Oid,
    /// The base type of a domain.
    pub base_type: Oid,
}

/// A row as plain values.
pub struct TypeRowView {
    pub oid: u32,
    pub name: Seq<char>,
    pub typ_type: int,
    pub category: int,
    pub relation_id: u32,
    pub element: u32,
    pub base_type: u32,
}

impl View for PgTypeRow {
    type V = TypeRowView;

    open spec fn view(&self) -> TypeRowView {
        TypeRowView {
            oid: self.oid.0,
            name: self.name@,
            typ_type: self.typ_type as int,
            category: self.category as int,
            relation_id: self.relation_id.0,
            element: self.element.0,
            base_type: self.base_type.0,
        }
    }
}

impl PgTypeRow {
    /// How the type of this row is completed.
    pub fn dispatch(&self) -> (r: TypeDispatch)
        ensures
            r == dispatch_of(self@.typ_type, self@.category),
    {
        let typ_type = if self.typ_type < 0 {
            Err(())
        } else {
            TypType::try_from(self.typ_type as u8)
        };
        let category = if self.category < 0 {
            Err(())
        } else {
            TypCategory::try_from(self.category as u8)
        };
        match (typ_type, category) {
            (Ok(TypType::Domain), _) => TypeDispatch::Domain,
            (Ok(TypType::Base), Ok(TypCategory::Array)) => TypeDispatch::Array,
            (Ok(TypType::Pseudo), Ok(TypCategory::Pseudo)) => TypeDispatch::Pseudo,
            (Ok(TypType::Range), Ok(TypCategory::Range)) => TypeDispatch::Range,
            (Ok(TypType::Enum), Ok(TypCategory::Enum)) => TypeDispatch::Enum,
            (Ok(TypType::Composite), Ok(TypCategory::Composite)) => TypeDispatch::Composite,
            _ => TypeDispatch::Simple,
        }
    }
}

/// A query against the server's catalog that the resolver asks for.
#[derive(Debug)]
pub enum CatalogQuery {
    /// The row of the type with this identifier, or with this name up to
    /// case.
    TypeByRef(PgTypeRef),
    /// The labels of the enum with this identifier, in sort order.
    EnumLabels(Oid),
    /// The attributes of the relation with this identifier that are not
    /// dropped and have a positive number, by number.
    CompositeFields(Oid),
    /// The subtype of the range type with this identifier.
    RangeSubtype(Oid),
}

/// A query as plain values.
pub enum CatalogQueryView {
    TypeByRef(TypeRefView),
    EnumLabels(u32),
    CompositeFields(u32),
    RangeSubtype(u32),
}

impl View for CatalogQuery {
    type V = CatalogQueryView;

    open spec fn view(&self) -> CatalogQueryView {
        match self {
            CatalogQuery::TypeByRef(r) => CatalogQueryView::TypeByRef(r@),
            CatalogQuery::EnumLabels(oid) => CatalogQueryView::EnumLabels(oid.0),
            CatalogQuery::CompositeFields(oid) => CatalogQueryView::CompositeFields(oid.0),
            CatalogQuery::RangeSubtype(oid) => CatalogQueryView::RangeSubtype(oid.0),
        }
    }
}

impl CatalogQuery {
    /// The text of the query. A type is looked up with its identifier as
    /// the first parameter and NULL as the second, or with NULL and its
    /// name; the other queries take the identifier as their one parameter.
    pub fn sql(&self) -> (r: &'static str)
        ensures
            r@ == match self@ {
                CatalogQueryView::TypeByRef(_) =>
                    "SELECT oid, typname, typtype, typcategory, typrelid, typelem, typbasetype FROM pg_catalog.pg_type WHERE oid = $1 OR typname ILIKE $2"@,
                CatalogQueryView::EnumLabels(_) =>
                    "SELECT enumlabel FROM pg_catalog.pg_enum WHERE enumtypid = $1 ORDER BY enumsortorder"@,
                CatalogQueryView::CompositeFields(_) =>
                    "SELECT attname, atttypid FROM pg_catalog.pg_attribute WHERE attrelid = $1 AND NOT attisdropped AND attnum > 0 ORDER BY attnum"@,
                CatalogQueryView::RangeSubtype(_) =>
                    "SELECT rngsubtype FROM pg_catalog.pg_range WHERE rngtypid = $1"@,
            },
    {
        match self {
            CatalogQuery::TypeByRef(_) =>
                "SELECT oid, typname, typtype, typcategory, typrelid, typelem, typbasetype FROM pg_catalog.pg_type WHERE oid = $1 OR typname ILIKE $2",
            CatalogQuery::EnumLabels(_) =>
                "SELECT enumlabel FROM pg_catalog.pg_enum WHERE enumtypid = $1 ORDER BY enumsortorder",
            CatalogQuery::CompositeFields(_) =>
                "SELECT attname, atttypid FROM pg_catalog.pg_attribute WHERE attrelid = $1 AND NOT attisdropped AND attnum > 0 ORDER BY attnum",
            CatalogQuery::RangeSubtype(_) =>
                "SELECT rngsubtype FROM pg_catalog.pg_range WHERE rngtypid = $1",
        }
    }
}

} // verus!
