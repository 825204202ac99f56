//! The shapes that describe a server type: references, kinds and resolved
//! types.

use vstd::prelude::*;
use vstd::std_specs::iter::IteratorSpec;

verus! {

/// A numeric object identifier assigned by the server.
#[derive(PartialEq, Eq, Structural, Clone, Copy, Debug, Hash)]
pub struct Oid(pub u32);

/// Lower-case form of an ASCII letter; every other character is itself.
pub open spec fn fold_char(c: char) -> char {
    if 'A' <= c && c <= 'Z' {
        ((c as u8) + 32) as char
    } else {
        c
    }
}

/// Two names denote the same type name when they agree up to ASCII case.
pub open spec fn names_match(a: Seq<char>, b: Seq<char>) -> bool {
    &&& a.len() == b.len()
    &&& forall|i: int| 0 <= i < a.len() ==> fold_char(#[trigger] a[i]) == fold_char(b[i])
}

/// A name matches itself.
pub proof fn lemma_names_match_reflexive(a: Seq<char>)
    ensures
        names_match(a, a),
{
}

/// Matching up to case is symmetric.
pub proof fn lemma_names_match_symmetric(a: Seq<char>, b: Seq<char>)
    requires
        names_match(a, b),
    ensures
        names_match(b, a),
{
    assert forall|i: int| 0 <= i < b.len() implies fold_char(#[trigger] b[i]) == fold_char(a[i]) by {
        assert(fold_char(a[i]) == fold_char(b[i]));
    }
}

/// Matching up to case is transitive.
pub proof fn lemma_names_match_transitive(a: Seq<char>, b: Seq<char>, c: Seq<char>)
    requires
        names_match(a, b),
        names_match(b, c),
    ensures
        names_match(a, c),
{
    assert forall|i: int| 0 <= i < a.len() implies fold_char(#[trigger] a[i]) == fold_char(c[i]) by {
        assert(fold_char(a[i]) == fold_char(b[i]));
        assert(fold_char(b[i]) == fold_char(c[i]));
    }
}

fn fold_ascii(c: char) -> (r: char)
    ensures
        r == fold_char(c),
{
    if 'A' <= c && c <= 'Z' {
        ((c as u8) + 32) as char
    } else {
        c
    }
}

/// Compares two names up to ASCII case.
pub fn name_eq(a: &str, b: &str) -> (r: bool)
    ensures
        r == names_match(a@, b@),
{
    let mut left = a.chars();
    let mut right = b.chars();
    let ghost mut n: int = 0;
    loop
        invariant
            0 <= n <= a@.len(),
            n <= b@.len(),
            left.remaining() == a@.skip(n),
            right.remaining() == b@.skip(n),
            forall|i: int| 0 <= i < n ==> fold_char(#[trigger] a@[i]) == fold_char(b@[i]),
        decreases a@.len() - n,
    {
        let x = left.next();
        let y = right.next();
        match (x, y) {
            (None, None) => {
                return true;
            },
            (Some(p), Some(q)) => {
                if fold_ascii(p) != fold_ascii(q) {
                    return false;
                }
                proof {
                    n = n + 1;
                }
            },
            _ => {
                return false;
            },
        }
    }
}

/// A reference to a type that has not been resolved: by identifier, or by a
/// name that is matched against the catalog up to ASCII case.
#[derive(Debug)]
pub enum PgTypeRef {
    Oid(Oid),
    Name(String),
}

/// What a `PgTypeRef` stands for in contracts.
pub enum TypeRefView {
    Oid(u32),
    Name(Seq<char>),
}

impl View for PgTypeRef {
    type V = TypeRefView;

    open spec fn view(&self) -> TypeRefView {
        match self {
            PgTypeRef::Oid(oid) => TypeRefView::Oid(oid.0),
            PgTypeRef::Name(name) => TypeRefView::Name(name@),
        }
    }
}

/// Two references are the same key of the catalog: equal identifiers, or
/// names that agree up to ASCII case.
pub open spec fn same_ref(a: TypeRefView, b: TypeRefView) -> bool {
    match (a, b) {
        (TypeRefView::Oid(x), TypeRefView::Oid(y)) => x == y,
        (TypeRefView::Name(x), TypeRefView::Name(y)) => names_match(x, y),
        _ => false,
    }
}

impl Clone for PgTypeRef {
    fn clone(&self) -> (r: Self)
        ensures
            r@ == self@,
    {
        match self {
            PgTypeRef::Oid(oid) => PgTypeRef::Oid(*oid),
            PgTypeRef::Name(name) => PgTypeRef::Name(name.clone()),
        }
    }
}

impl PgTypeRef {
    /// Whether `self` and `other` are the same key of the catalog.
    pub fn same(&self, other: &PgTypeRef) -> (r: bool)
        ensures
            r == same_ref(self@, other@),
    {
        match (self, other) {
            (PgTypeRef::Oid(x), PgTypeRef::Oid(y)) => x.0 == y.0,
            (PgTypeRef::Name(x), PgTypeRef::Name(y)) => name_eq(x.as_str(), y.as_str()),
            _ => false,
        }
    }
}

/// The kind of a resolved type, with what the kind refers to.
#[derive(Debug)]
pub enum PgTypeKind {
    /// An opaque scalar.
    Simple,
    Pseudo,
    /// A domain over the base type with this identifier.
    Domain(Oid),
    /// The fields of a composite type, in attribute order.
    Composite(Vec<(String, PgTypeRef)>),
    /// An array of the element type with this identifier.
    Array(Oid),
    /// The labels of an enum, in the server's sort order.
    Enum(Vec<String>),
    /// A range over the element type with this identifier.
    Range(Oid),
}

/// What a `PgTypeKind` stands for in contracts.
pub enum TypeKindView {
    Simple,
    Pseudo,
    Domain(u32),
    Composite(Seq<(Seq<char>, TypeRefView)>),
    Array(u32),
    Enum(Seq<Seq<char>>),
    Range(u32),
}

/// The fields of a composite type as plain values.
pub open spec fn fields_view(fields: Seq<(String, PgTypeRef)>) -> Seq<(Seq<char>, TypeRefView)> {
    Seq::new(fields.len(), |i: int| (fields[i].0@, fields[i].1@))
}

/// The labels of an enum as plain values.
pub open spec fn labels_view(labels: Seq<String>) -> Seq<Seq<char>> {
    Seq::new(labels.len(), |i: int| labels[i]@)
}

impl View for PgTypeKind {
    type V = TypeKindView;

    open spec fn view(&self) -> TypeKindView {
        match self {
            PgTypeKind::Simple => TypeKindView::Simple,
            PgTypeKind::Pseudo => TypeKindView::Pseudo,
            PgTypeKind::Domain(base) => TypeKindView::Domain(base.0),
            PgTypeKind::Composite(fields) => TypeKindView::Composite(fields_view(fields@)),
            PgTypeKind::Array(element) => TypeKindView::Array(element.0),
            PgTypeKind::Enum(labels) => TypeKindView::Enum(labels_view(labels@)),
            PgTypeKind::Range(element) => TypeKindView::Range(element.0),
        }
    }
}

fn clone_fields(fields: &Vec<(String, PgTypeRef)>) -> (r: Vec<(String, PgTypeRef)>)
    ensures
        fields_view(r@) == fields_view(fields@),
{
    let mut out: Vec<(String, PgTypeRef)> = Vec::new();
    let mut i: usize = 0;
    while i < fields.len()
        invariant
            i <= fields.len(),
            out.len() == i,
            forall|j: int| 0 <= j < i ==> out@[j].0@ == fields@[j].0@ && out@[j].1@ == fields@[j].1@,
        decreases fields.len() - i,
    {
        let name = fields[i].0.clone();
        let typ = fields[i].1.clone();
        out.push((name, typ));
        i = i + 1;
    }
    out
}

fn clone_labels(labels: &Vec<String>) -> (r: Vec<String>)
    ensures
        labels_view(r@) == labels_view(labels@),
{
    let mut out: Vec<String> = Vec::new();
    let mut i: usize = 0;
    while i < labels.len()
        invariant
            i <= labels.len(),
            out.len() == i,
            forall|j: int| 0 <= j < i ==> out@[j]@ == labels@[j]@,
        decreases labels.len() - i,
    {
        out.push(labels[i].clone());
        i = i + 1;
    }
    out
}

impl Clone for PgTypeKind {
    fn clone(&self) -> (r: Self)
        ensures
            r@ == self@,
    {
        match self {
            PgTypeKind::Simple => PgTypeKind::Simple,
            PgTypeKind::Pseudo => PgTypeKind::Pseudo,
            PgTypeKind::Domain(base) => PgTypeKind::Domain(*base),
            PgTypeKind::Composite(fields) => PgTypeKind::Composite(clone_fields(fields)),
            PgTypeKind::Array(element) => PgTypeKind::Array(*element),
            PgTypeKind::Enum(labels) => PgTypeKind::Enum(clone_labels(labels)),
            PgTypeKind::Range(element) => PgTypeKind::Range(*element),
        }
    }
}

/// A resolved type: its identifier, its name and its kind. A value of this
/// type is complete; the types that its kind refers to are looked up in the
/// catalog when they are needed.
#[derive(Debug)]
pub struct PgTypeInfo {
    pub oid: Oid,
    pub name: String,
    pub kind: PgTypeKind,
}

/// What a `PgTypeInfo` stands for in contracts.
pub struct TypeInfoView {
    pub oid: u32,
    pub name: Seq<char>,
    pub kind: TypeKindView,
}

impl View for PgTypeInfo {
    type V = TypeInfoView;

    open spec fn view(&self) -> TypeInfoView {
        TypeInfoView { oid: self.oid.0, name: self.name@, kind: self.kind@ }
    }
}

impl Clone for PgTypeInfo {
    fn clone(&self) -> (r: Self)
        ensures
            r@ == self@,
    {
        PgTypeInfo { oid: self.oid, name: self.name.clone(), kind: self.kind.clone() }
    }
}

/// Whether the reference `r` denotes the type `t`: by its identifier, or by
/// its name up to ASCII case.
pub open spec fn ref_matches(r: TypeRefView, t: TypeInfoView) -> bool {
    match r {
        TypeRefView::Oid(oid) => oid == t.oid,
        TypeRefView::Name(name) => names_match(name, t.name),
    }
}

/// The references that a type of this kind makes to other types, in order.
pub open spec fn kind_refs(kind: TypeKindView) -> Seq<TypeRefView> {
    match kind {
        TypeKindView::Simple => Seq::empty(),
        TypeKindView::Pseudo => Seq::empty(),
        TypeKindView::Domain(base) => seq![TypeRefView::Oid(base)],
        TypeKindView::Composite(fields) => Seq::new(fields.len(), |i: int| fields[i].1),
        TypeKindView::Array(element) => seq![TypeRefView::Oid(element)],
        TypeKindView::Enum(labels) => Seq::empty(),
        TypeKindView::Range(element) => seq![TypeRefView::Oid(element)],
    }
}

impl PgTypeInfo {
    /// The identifier of the type.
    pub fn oid(&self) -> (r: Oid)
        ensures
            r == self.oid,
    {
        self.oid
    }

    /// The kind of the type.
    pub fn kind(&self) -> (r: &PgTypeKind)
        ensures
            r == &self.kind,
    {
        &self.kind
    }

    /// Whether the reference `r` denotes this type.
    pub fn matches(&self, r: &PgTypeRef) -> (b: bool)
        ensures
            b == ref_matches(r@, self@),
    {
        match r {
            PgTypeRef::Oid(oid) => oid.0 == self.oid.0,
            PgTypeRef::Name(name) => name_eq(name.as_str(), self.name.as_str()),
        }
    }

    /// The references that this type makes to other types, in order.
    pub fn references(&self) -> (r: Vec<PgTypeRef>)
        ensures
            r@.len() == kind_refs(self@.kind).len(),
            forall|i: int| 0 <= i < r@.len() ==> (#[trigger] r@[i])@ == kind_refs(self@.kind)[i],
    {
        let mut out: Vec<PgTypeRef> = Vec::new();
        match &self.kind {
            PgTypeKind::Simple => {},
            PgTypeKind::Pseudo => {},
            PgTypeKind::Enum(_) => {},
            PgTypeKind::Domain(base) => {
                out.push(PgTypeRef::Oid(*base));
            },
            PgTypeKind::Array(element) => {
                out.push(PgTypeRef::Oid(*element));
            },
            PgTypeKind::Range(element) => {
                out.push(PgTypeRef::Oid(*element));
            },
            PgTypeKind::Composite(fields) => {
                let mut i: usize = 0;
                while i < fields.len()
                    invariant
                        i <= fields.len(),
                        out.len() == i,
                        forall|j: int| 0 <= j < i ==> (#[trigger] out@[j])@ == fields@[j].1@,
                    decreases fields.len() - i,
                {
                    out.push(fields[i].1.clone());
                    i = i + 1;
                }
            },
        }
        out
    }
}

/// The type that a value is sent as: a reference that is resolved when the
/// statement is prepared, or a type that is already known.
#[derive(Debug)]
pub enum LazyPgTypeInfo {
    Ref(PgTypeRef),
    Fetched(PgTypeInfo),
}

/// What a `LazyPgTypeInfo` stands for in contracts.
pub enum LazyTypeInfoView {
    Ref(TypeRefView),
    Fetched(TypeInfoView),
}

impl View for LazyPgTypeInfo {
    type V = LazyTypeInfoView;

    open spec fn view(&self) -> LazyTypeInfoView {
        match self {
            LazyPgTypeInfo::Ref(r) => LazyTypeInfoView::Ref(r@),
            LazyPgTypeInfo::Fetched(t) => LazyTypeInfoView::Fetched(t@),
        }
    }
}

impl Clone for LazyPgTypeInfo {
    fn clone(&self) -> (r: Self)
        ensures
            r@ == self@,
    {
        match self {
            LazyPgTypeInfo::Ref(r) => LazyPgTypeInfo::Ref(r.clone()),
            LazyPgTypeInfo::Fetched(t) => LazyPgTypeInfo::Fetched(t.clone()),
        }
    }
}

} // verus!
