//! The part of a connection that resolves types: the catalog, and the
//! session that fetches what the catalog lacks.
//!
//! The library sends nothing. Where a type has to be fetched it hands out
//! the query to run, and it is resumed with the reply.

use vstd::prelude::*;
use crate::catalog::{
    builtin_types, lemma_declare_keeps_fetched, lemma_declare_state, lemma_declare_wf,
    lemma_flag_missing_keeps_fetched, lemma_flag_missing_state, lemma_flag_missing_wf,
    lemma_insert_keeps_fetched, lemma_insert_state, lemma_insert_wf, lemma_same_ref_symmetric,
    lemma_declare_all_state, lemma_find_from, lemma_unfetched_are_waiting, listed, not_denoting,
    refs_view,
    CatalogView, EntryState, GetPgTypeError, LocalPgCatalog,
};
use crate::error::{Error, ErrorView};
use crate::text::NameMap;
use crate::type_info::{
    fields_view, kind_refs, labels_view, lemma_names_match_reflexive, ref_matches, same_ref, Oid,
    PgTypeInfo, PgTypeKind, PgTypeRef, TypeInfoView, TypeKindView, TypeRefView,
};
use crate::type_row::{
    dispatch_of, CatalogQuery, CatalogQueryView, PgTypeRow, TypeDispatch, TypeRowView,
};

verus! {

/// The reply to a catalog query.
#[derive(Debug)]
pub enum QueryReply {
    /// The row of a type, if the server has one.
    TypeRow(Option<PgTypeRow>),
    EnumLabels(Vec<String>),
    /// The attributes of a relation: name and identifier of the type.
    CompositeFields(Vec<(String, Oid)>),
    /// The subtype of a range type, if the server has a row for the range.
    RangeSubtype(Option<Oid>),
    /// The transport or the protocol failed, with this message.
    Failed(String),
}

/// A reply as plain values.
pub enum QueryReplyView {
    TypeRow(Option<TypeRowView>),
    EnumLabels(Seq<Seq<char>>),
    CompositeFields(Seq<(Seq<char>, u32)>),
    RangeSubtype(Option<u32>),
    Failed(Seq<char>),
}

/// The attributes of a relation as plain values.
pub open spec fn attributes_view(fields: Seq<(String, Oid)>) -> Seq<(Seq<char>, u32)> {
    Seq::new(fields.len(), |i: int| (fields[i].0@, fields[i].1.0))
}

impl View for QueryReply {
    type V = QueryReplyView;

    open spec fn view(&self) -> QueryReplyView {
        match self {
            QueryReply::TypeRow(row) => QueryReplyView::TypeRow(
                match row {
                    Some(row) => Some(row@),
                    None => None,
                },
            ),
            QueryReply::EnumLabels(labels) => QueryReplyView::EnumLabels(labels_view(labels@)),
            QueryReply::CompositeFields(fields) => QueryReplyView::CompositeFields(
                attributes_view(fields@),
            ),
            QueryReply::RangeSubtype(subtype) => QueryReplyView::RangeSubtype(
                match subtype {
                    Some(oid) => Some(oid.0),
                    None => None,
                },
            ),
            QueryReply::Failed(message) => QueryReplyView::Failed(message@),
        }
    }
}

/// What the resolver wants next: a query to be run, or nothing more.
#[derive(Debug)]
pub enum ResolveStep {
    Query(CatalogQuery),
    Done(Result<PgTypeInfo, Error>),
}

/// A step as plain values.
pub enum ResolveStepView {
    Query(CatalogQueryView),
    Done(Result<TypeInfoView, ErrorView>),
}

impl View for ResolveStep {
    type V = ResolveStepView;

    open spec fn view(&self) -> ResolveStepView {
        match self {
            ResolveStep::Query(query) => ResolveStepView::Query(query@),
            ResolveStep::Done(Ok(t)) => ResolveStepView::Done(Ok(t@)),
            ResolveStep::Done(Err(e)) => ResolveStepView::Done(Err(e@)),
        }
    }
}

/// A fetch session as plain values: the identifier that was asked for,
/// the references to fetch with the position of the one that is being
/// fetched, and the type whose row has arrived and whose second query is
/// under way.
pub struct SessionView {
    pub oid: u32,
    pub worklist: Seq<TypeRefView>,
    pub pos: nat,
    pub pending: Option<(u32, Seq<char>, TypeDispatch)>,
}

/// The resolving part of a connection as plain values. A session is there
/// exactly while types are being fetched.
pub struct ConnectionView {
    pub catalog: CatalogView,
    pub session: Option<SessionView>,
    /// The identifiers that were found for type names.
    pub type_ids: Map<Seq<char>, Oid>,
}

/// What the catalog alone answers for an identifier.
pub open spec fn lookup(catalog: CatalogView, oid: u32) -> Result<TypeInfoView, ErrorView> {
    match catalog.find(TypeRefView::Oid(oid)) {
        Some(t) => Ok(t),
        None => Err(ErrorView::TypeNotFound { typ: TypeRefView::Oid(oid) }),
    }
}

/// The fields of a composite type from the attributes of its relation.
pub open spec fn composite_fields(fields: Seq<(Seq<char>, u32)>) -> Seq<(Seq<char>, TypeRefView)> {
    Seq::new(fields.len(), |i: int| (fields[i].0, TypeRefView::Oid(fields[i].1)))
}

/// The message of the error for a reply that arrives while no types are
/// being fetched.
pub open spec fn no_session_message() -> Seq<char> {
    "no type fetch is in progress"@
}

/// The message of the error for a reply of another kind than the query
/// that was handed out.
pub open spec fn unexpected_reply_message() -> Seq<char> {
    "the reply does not answer the query that was asked"@
}

/// Whether a list of references holds no key twice.
pub open spec fn distinct(refs: Seq<TypeRefView>) -> bool {
    forall|i: int, j: int|
        0 <= i < j < refs.len() ==> !same_ref(#[trigger] refs[i], #[trigger] refs[j])
}

impl ConnectionView {
    /// The catalog is well formed, and a session points at a reference of
    /// its worklist, which holds no key twice.
    pub open spec fn wf(self) -> bool {
        &&& self.catalog.wf()
        &&& self.session matches Some(s) ==> s.pos < s.worklist.len() && distinct(s.worklist)
    }

    /// A request for the type with the identifier `oid`.
    ///
    /// Where a session is under way nothing is fetched: the catalog answers
    /// as it is, and an identifier that nothing is known of starts to wait,
    /// so that the session picks it up before it ends. Where the catalog
    /// knows the type, or knows it to be missing, and no reference waits,
    /// the catalog answers at once. Otherwise a session begins, with the
    /// waiting references as the worklist, and after them the identifier
    /// itself where nothing was known of it: an identifier that waits
    /// already is asked for in its turn, and once.
    pub open spec fn begin(self, oid: u32) -> (ConnectionView, ResolveStepView) {
        let state = self.catalog.state(TypeRefView::Oid(oid));
        let idle = self.catalog.unfetched.len() == 0;
        if self.session is Some {
            (
                ConnectionView { catalog: self.catalog.declare(TypeRefView::Oid(oid)), ..self },
                ResolveStepView::Done(lookup(self.catalog, oid)),
            )
        } else if idle && (state is Fetched || state is Missing) {
            (self, ResolveStepView::Done(lookup(self.catalog, oid)))
        } else {
            let worklist = if state is Undeclared {
                self.catalog.unfetched.push(TypeRefView::Oid(oid))
            } else {
                self.catalog.unfetched
            };
            ConnectionView {
                session: Some(
                    SessionView {
                        oid,
                        worklist,
                        pos: 0,
                        pending: None,
                    },
                ),
                ..self
            }.advance()
        }
    }

    /// The next step of a session that waits for no reply: the query for
    /// the next reference of the worklist; with the worklist done, a new
    /// worklist of the references that wait by now; with none waiting, the
    /// end of the session, and what the catalog then answers for the
    /// identifier asked for.
    pub open spec fn advance(self) -> (ConnectionView, ResolveStepView) {
        let s = self.session->0;
        if s.pos < s.worklist.len() {
            (self, ResolveStepView::Query(CatalogQueryView::TypeByRef(s.worklist[s.pos as int])))
        } else if self.catalog.unfetched.len() > 0 {
            (
                ConnectionView {
                    session: Some(SessionView { worklist: self.catalog.unfetched, pos: 0, ..s }),
                    ..self
                },
                ResolveStepView::Query(CatalogQueryView::TypeByRef(self.catalog.unfetched[0])),
            )
        } else {
            (
                ConnectionView { session: None, ..self },
                ResolveStepView::Done(lookup(self.catalog, s.oid)),
            )
        }
    }

    /// A fetched type arrives: it is inserted, and the session moves on.
    pub open spec fn accept(self, t: TypeInfoView) -> (ConnectionView, ResolveStepView) {
        let s = self.session->0;
        ConnectionView {
            catalog: self.catalog.insert(t),
            session: Some(SessionView { pos: s.pos + 1, pending: None, ..s }),
            ..self
        }.advance()
    }

    /// The server has no row for the reference that is being fetched: it is
    /// flagged as missing, and the session moves on to what else waits.
    pub open spec fn row_not_found(self) -> (ConnectionView, ResolveStepView) {
        let s = self.session->0;
        ConnectionView {
            catalog: self.catalog.flag_missing(s.worklist[s.pos as int]),
            session: Some(SessionView { pos: s.pos + 1, pending: None, ..s }),
            ..self
        }.advance()
    }

    /// The session ends with an error, and the catalog stays as it is.
    pub open spec fn abort(self, e: ErrorView) -> (ConnectionView, ResolveStepView) {
        (ConnectionView { session: None, ..self }, ResolveStepView::Done(Err(e)))
    }

    /// The row of a type arrives. What the row settles is inserted; a
    /// range, an enum or a composite asks for its second query.
    pub open spec fn fetch_type(self, row: TypeRowView) -> (ConnectionView, ResolveStepView) {
        let s = self.session->0;
        let dispatch = dispatch_of(row.typ_type, row.category);
        let waiting = ConnectionView {
            session: Some(SessionView { pending: Some((row.oid, row.name, dispatch)), ..s }),
            ..self
        };
        match dispatch {
            TypeDispatch::Domain => self.accept(
                TypeInfoView {
                    oid: row.oid,
                    name: row.name,
                    kind: TypeKindView::Domain(row.base_type),
                },
            ),
            TypeDispatch::Array => self.accept(
                TypeInfoView { oid: row.oid, name: row.name, kind: TypeKindView::Array(row.element) },
            ),
            TypeDispatch::Pseudo => self.accept(
                TypeInfoView { oid: row.oid, name: row.name, kind: TypeKindView::Pseudo },
            ),
            TypeDispatch::Simple => self.accept(
                TypeInfoView { oid: row.oid, name: row.name, kind: TypeKindView::Simple },
            ),
            TypeDispatch::Range => (
                waiting,
                ResolveStepView::Query(CatalogQueryView::RangeSubtype(row.oid)),
            ),
            TypeDispatch::Enum => (
                waiting,
                ResolveStepView::Query(CatalogQueryView::EnumLabels(row.oid)),
            ),
            TypeDispatch::Composite => (
                waiting,
                ResolveStepView::Query(CatalogQueryView::CompositeFields(row.relation_id)),
            ),
        }
    }

    /// The reply to the query that the session asked for arrives.
    pub open spec fn resume(self, reply: QueryReplyView) -> (ConnectionView, ResolveStepView) {
        match self.session {
            None => (
                self,
                ResolveStepView::Done(Err(ErrorView::Protocol(no_session_message()))),
            ),
            Some(s) => match (s.pending, reply) {
                (_, QueryReplyView::Failed(message)) => self.abort(ErrorView::Protocol(message)),
                (None, QueryReplyView::TypeRow(None)) => self.row_not_found(),
                (None, QueryReplyView::TypeRow(Some(row))) => self.fetch_type(row),
                (
                    Some((oid, name, TypeDispatch::Range)),
                    QueryReplyView::RangeSubtype(Some(subtype)),
                ) => self.accept(TypeInfoView { oid, name, kind: TypeKindView::Range(subtype) }),
                (
                    Some((oid, name, TypeDispatch::Range)),
                    QueryReplyView::RangeSubtype(None),
                ) => self.row_not_found(),
                (
                    Some((oid, name, TypeDispatch::Enum)),
                    QueryReplyView::EnumLabels(labels),
                ) => self.accept(TypeInfoView { oid, name, kind: TypeKindView::Enum(labels) }),
                (
                    Some((oid, name, TypeDispatch::Composite)),
                    QueryReplyView::CompositeFields(fields),
                ) => self.accept(
                    TypeInfoView {
                        oid,
                        name,
                        kind: TypeKindView::Composite(composite_fields(fields)),
                    },
                ),
                _ => self.abort(ErrorView::Protocol(unexpected_reply_message())),
            },
        }
    }
}

struct PendingType {
    oid: Oid,
    name: String,
    dispatch: TypeDispatch,
}

struct FetchSession {
    oid: Oid,
    worklist: Vec<PgTypeRef>,
    pos: usize,
    pending: Option<PendingType>,
}

impl View for FetchSession {
    type V = SessionView;

    closed spec fn view(&self) -> SessionView {
        SessionView {
            oid: self.oid.0,
            worklist: refs_view(self.worklist@),
            pos: self.pos as nat,
            pending: match self.pending {
                Some(p) => Some((p.oid.0, p.name@, p.dispatch)),
                None => None,
            },
        }
    }
}

/// The resolving part of a connection: its catalog, and the fetch session
/// while there is one.
pub struct PgConnection {
    local_catalog: LocalPgCatalog,
    session: Option<FetchSession>,
    cache_type_oid: NameMap<Oid>,
}

impl View for PgConnection {
    type V = ConnectionView;

    closed spec fn view(&self) -> ConnectionView {
        ConnectionView {
            catalog: self.local_catalog@,
            session: match self.session {
                Some(s) => Some(s@),
                None => None,
            },
            type_ids: self.cache_type_oid@,
        }
    }
}

/// The domain type of a row: its base type is resolved when it is needed.
pub fn fetch_domain_by_oid(oid: Oid, base_type: Oid, name: String) -> (r: PgTypeInfo)
    ensures
        r@ == (TypeInfoView { oid: oid.0, name: name@, kind: TypeKindView::Domain(base_type.0) }),
{
    PgTypeInfo { oid, name, kind: PgTypeKind::Domain(base_type) }
}

/// The range type of a row, with the subtype that the range catalog gave.
pub fn fetch_range_by_oid(oid: Oid, name: String, element_oid: Oid) -> (r: PgTypeInfo)
    ensures
        r@ == (TypeInfoView { oid: oid.0, name: name@, kind: TypeKindView::Range(element_oid.0) }),
{
    PgTypeInfo { oid, name, kind: PgTypeKind::Range(element_oid) }
}

/// The enum type of a row, with its labels in the order in which they came.
pub fn fetch_enum_by_oid(oid: Oid, name: String, variants: Vec<String>) -> (r: PgTypeInfo)
    ensures
        r@ == (TypeInfoView {
            oid: oid.0,
            name: name@,
            kind: TypeKindView::Enum(labels_view(variants@)),
        }),
{
    PgTypeInfo { oid, name, kind: PgTypeKind::Enum(variants) }
}

/// The composite type of a row, with one field for each attribute, in the
/// order in which they came. The types of the fields are references.
pub fn fetch_composite_by_oid(oid: Oid, name: String, fields: Vec<(String, Oid)>) -> (r: PgTypeInfo)
    ensures
        r@ == (TypeInfoView {
            oid: oid.0,
            name: name@,
            kind: TypeKindView::Composite(composite_fields(attributes_view(fields@))),
        }),
{
    let mut out: Vec<(String, PgTypeRef)> = Vec::new();
    let mut i: usize = 0;
    while i < fields.len()
        invariant
            i <= fields.len(),
            out.len() == i,
            forall|j: int|
                0 <= j < i ==> (#[trigger] out@[j]).0@ == fields@[j].0@ && out@[j].1@
                    == TypeRefView::Oid(fields@[j].1.0),
        decreases fields.len() - i,
    {
        out.push((fields[i].0.clone(), PgTypeRef::Oid(fields[i].1)));
        i = i + 1;
    }
    assert(fields_view(out@) =~= composite_fields(attributes_view(fields@)));
    PgTypeInfo { oid, name, kind: PgTypeKind::Composite(out) }
}

impl PgConnection {
    /// A connection with the built-in types in its catalog and no session.
    pub fn new() -> (r: Self)
        ensures
            r@.wf(),
            r@.session is None,
            r@.catalog.types == builtin_types(),
            r@.catalog.unfetched.len() == 0,
            r@.catalog.missing.len() == 0,
            r@.type_ids == Map::<Seq<char>, Oid>::empty(),
    {
        PgConnection {
            local_catalog: LocalPgCatalog::new(),
            session: None,
            cache_type_oid: NameMap::new(),
        }
    }

    /// The catalog of the connection.
    pub fn catalog(&self) -> (r: &LocalPgCatalog)
        ensures
            r@ == self@.catalog,
    {
        &self.local_catalog
    }

    /// Whether types are being fetched.
    pub fn is_fetching_types(&self) -> (r: bool)
        ensures
            r == (self@.session is Some),
    {
        self.session.is_some()
    }

    /// Makes a reference that nothing is known of wait to be fetched.
    pub fn declare_type(&mut self, r: PgTypeRef)
        requires
            old(self)@.wf(),
        ensures
            final(self)@ == (ConnectionView {
                catalog: old(self)@.catalog.declare(r@),
                ..old(self)@
            }),
            final(self)@.wf(),
    {
        self.local_catalog.declare_type(r);
    }

    fn lookup(&self, oid: Oid) -> (r: Result<PgTypeInfo, Error>)
        ensures
            match r {
                Ok(t) => lookup(self@.catalog, oid.0) == Ok::<TypeInfoView, ErrorView>(t@),
                Err(e) => lookup(self@.catalog, oid.0) == Err::<TypeInfoView, ErrorView>(e@),
            },
    {
        match self.local_catalog.resolve_type_info(&PgTypeRef::Oid(oid)) {
            Ok(t) => Ok(t.clone()),
            Err(_) => Err(Error::TypeNotFound { typ: PgTypeRef::Oid(oid) }),
        }
    }

    /// Asks for the type with the identifier `oid`.
    ///
    /// The answer comes at once where the catalog has it and no reference
    /// waits to be fetched, and where a session is under way; in a session
    /// an identifier that nothing is known of is left for the session to
    /// fetch. Otherwise a session begins and the first query is handed out;
    /// the session goes on with `resume_fetch`.
    pub fn maybe_fetch_type_info_by_oid(&mut self, oid: Oid) -> (r: ResolveStep)
        requires
            old(self)@.wf(),
        ensures
            (final(self)@, r@) == old(self)@.begin(oid.0),
            final(self)@.wf(),
    {
        let key = PgTypeRef::Oid(oid);
        if self.session.is_some() {
            let found = self.lookup(oid);
            self.local_catalog.declare_type(key);
            return ResolveStep::Done(found);
        }
        let mut unfetched = self.local_catalog.get_unfetched();
        let unknown = match self.local_catalog.resolve_type_info(&key) {
            Err(GetPgTypeError::Undeclared) => true,
            _ => false,
        };
        if unfetched.len() == 0 && !unknown {
            proof {
                lemma_unfetched_are_waiting(self@.catalog, key@);
            }
            return ResolveStep::Done(self.lookup(oid));
        }
        if unknown {
            let ghost before = refs_view(unfetched@);
            unfetched.push(key);
            proof {
                assert(refs_view(unfetched@) =~= before.push(TypeRefView::Oid(oid.0)));
                lemma_push_keeps_distinct(before, TypeRefView::Oid(oid.0));
            }
        }
        self.session = Some(FetchSession { oid, worklist: unfetched, pos: 0, pending: None });
        self.fetch_declared()
    }

    /// Goes on with the session: the next reference of the worklist, then
    /// the references that wait by now, until none waits.
    fn fetch_declared(&mut self) -> (r: ResolveStep)
        requires
            old(self)@.catalog.wf(),
            old(self)@.session is Some,
            old(self)@.session->0.pos <= old(self)@.session->0.worklist.len(),
            distinct(old(self)@.session->0.worklist),
        ensures
            (final(self)@, r@) == old(self)@.advance(),
            final(self)@.wf(),
    {
        let mut session = match self.session.take() {
            Some(s) => s,
            None => vstd::pervasive::unreached(),
        };
        if session.pos >= session.worklist.len() {
            session.worklist = self.local_catalog.get_unfetched();
            session.pos = 0;
        }
        if session.pos < session.worklist.len() {
            let query = CatalogQuery::TypeByRef(session.worklist[session.pos].clone());
            self.session = Some(session);
            ResolveStep::Query(query)
        } else {
            ResolveStep::Done(self.lookup(session.oid))
        }
    }

    fn accept(&mut self, ty: PgTypeInfo) -> (r: ResolveStep)
        requires
            old(self)@.wf(),
            old(self)@.session is Some,
        ensures
            (final(self)@, r@) == old(self)@.accept(ty@),
            final(self)@.wf(),
    {
        let mut session = match self.session.take() {
            Some(s) => s,
            None => vstd::pervasive::unreached(),
        };
        self.local_catalog.insert_type(ty);
        assert(session.pos < session.worklist.len());
        session.pos = session.pos + 1;
        session.pending = None;
        self.session = Some(session);
        self.fetch_declared()
    }

    fn row_not_found(&mut self) -> (r: ResolveStep)
        requires
            old(self)@.wf(),
            old(self)@.session is Some,
        ensures
            (final(self)@, r@) == old(self)@.row_not_found(),
            final(self)@.wf(),
    {
        let mut session = match self.session.take() {
            Some(s) => s,
            None => vstd::pervasive::unreached(),
        };
        assert(session.pos < session.worklist.len());
        self.local_catalog.flag_type_as_missing(session.worklist[session.pos].clone());
        session.pos = session.pos + 1;
        session.pending = None;
        self.session = Some(session);
        self.fetch_declared()
    }

    fn abort(&mut self, e: Error) -> (r: ResolveStep)
        requires
            old(self)@.wf(),
        ensures
            (final(self)@, r@) == old(self)@.abort(e@),
            final(self)@.wf(),
    {
        self.session = None;
        ResolveStep::Done(Err(e))
    }

    /// Takes the row of a type: what the row settles is inserted, and a
    /// range, an enum or a composite asks for its second query.
    fn fetch_type(&mut self, row: PgTypeRow) -> (r: ResolveStep)
        requires
            old(self)@.wf(),
            old(self)@.session is Some,
        ensures
            (final(self)@, r@) == old(self)@.fetch_type(row@),
            final(self)@.wf(),
    {
        let dispatch = row.dispatch();
        match dispatch {
            TypeDispatch::Domain => {
                let ty = fetch_domain_by_oid(row.oid, row.base_type, row.name);
                self.accept(ty)
            },
            TypeDispatch::Array => self.accept(
                PgTypeInfo { oid: row.oid, name: row.name, kind: PgTypeKind::Array(row.element) },
            ),
            TypeDispatch::Pseudo => self.accept(
                PgTypeInfo { oid: row.oid, name: row.name, kind: PgTypeKind::Pseudo },
            ),
            TypeDispatch::Simple => self.accept(
                PgTypeInfo { oid: row.oid, name: row.name, kind: PgTypeKind::Simple },
            ),
            TypeDispatch::Range | TypeDispatch::Enum | TypeDispatch::Composite => {
                let mut session = match self.session.take() {
                    Some(s) => s,
                    None => vstd::pervasive::unreached(),
                };
                let query = match dispatch {
                    TypeDispatch::Range => CatalogQuery::RangeSubtype(row.oid),
                    TypeDispatch::Enum => CatalogQuery::EnumLabels(row.oid),
                    _ => CatalogQuery::CompositeFields(row.relation_id),
                };
                session.pending = Some(PendingType { oid: row.oid, name: row.name, dispatch });
                self.session = Some(session);
                ResolveStep::Query(query)
            },
        }
    }

    /// Goes on with the session, with the reply to the query that was
    /// handed out last.
    ///
    /// A type that arrives is inserted into the catalog. A row that the
    /// server does not have flags the reference as missing. Either way the
    /// session goes on to what else waits, and it ends when nothing waits,
    /// with what the catalog then holds for the identifier that was asked
    /// for. A failure ends the session at once and is handed through.
    /// Whenever the session ends, no session is left on the connection.
    pub fn resume_fetch(&mut self, reply: QueryReply) -> (r: ResolveStep)
        requires
            old(self)@.wf(),
        ensures
            (final(self)@, r@) == old(self)@.resume(reply@),
            final(self)@.wf(),
    {
        if self.session.is_none() {
            return ResolveStep::Done(Err(Error::Protocol("no type fetch is in progress".to_owned())));
        }
        let pending = match &mut self.session {
            Some(session) => session.pending.take(),
            None => None,
        };
        match (pending, reply) {
            (_, QueryReply::Failed(message)) => self.abort(Error::Protocol(message)),
            (None, QueryReply::TypeRow(None)) => self.row_not_found(),
            (None, QueryReply::TypeRow(Some(row))) => self.fetch_type(row),
            (Some(p), reply) => {
                match (p.dispatch, reply) {
                    (TypeDispatch::Range, QueryReply::RangeSubtype(Some(subtype))) => {
                        let ty = fetch_range_by_oid(p.oid, p.name, subtype);
                        self.accept(ty)
                    },
                    (TypeDispatch::Range, QueryReply::RangeSubtype(None)) => self.row_not_found(),
                    (TypeDispatch::Enum, QueryReply::EnumLabels(labels)) => {
                        let ty = fetch_enum_by_oid(p.oid, p.name, labels);
                        self.accept(ty)
                    },
                    (TypeDispatch::Composite, QueryReply::CompositeFields(fields)) => {
                        let ty = fetch_composite_by_oid(p.oid, p.name, fields);
                        self.accept(ty)
                    },
                    _ => self.abort(
                        Error::Protocol(
                            "the reply does not answer the query that was asked".to_owned(),
                        ),
                    ),
                }
            },
            _ => self.abort(
                Error::Protocol("the reply does not answer the query that was asked".to_owned()),
            ),
        }
    }
}

/// The reply to the query for the identifier of a type name.
#[derive(Debug)]
pub enum TypeIdReply {
    /// The identifier, if the server has a type of the name.
    Row(Option<Oid>),
    /// The transport or the protocol failed, with this message.
    Failed(String),
}

/// What finding the identifier of a type name wants next.
#[derive(Debug)]
pub enum TypeIdStep {
    /// The query is to be run with the name as its one parameter.
    Query { sql: &'static str },
    Done(Oid),
}

/// The query for the identifier of the type with a name, up to case.
pub open spec fn type_id_sql() -> Seq<char> {
    "SELECT oid FROM pg_catalog.pg_type WHERE typname ILIKE $1"@
}

impl ConnectionView {
    /// What the connection answers when asked for the identifier of a name
    /// and the reply to the query has come: an identifier is remembered
    /// for the name, no row means that there is no such type, and a failure
    /// is handed through.
    pub open spec fn resume_type_id(self, name: Seq<char>, reply: TypeIdReply) -> (
        ConnectionView,
        Result<Oid, ErrorView>,
    ) {
        match reply {
            TypeIdReply::Row(Some(oid)) => (
                ConnectionView { type_ids: self.type_ids.insert(name, oid), ..self },
                Ok(oid),
            ),
            TypeIdReply::Row(None) => (
                self,
                Err(ErrorView::TypeNotFound { typ: TypeRefView::Name(name) }),
            ),
            TypeIdReply::Failed(message) => (self, Err(ErrorView::Protocol(message@))),
        }
    }
}

impl PgConnection {
    /// Asks for the identifier of the type called `name`. An identifier that
    /// was found before is answered at once; otherwise the query is handed
    /// out, and `resume_type_id_by_name` goes on with its reply.
    pub fn fetch_type_id_by_name(&self, name: &str) -> (r: TypeIdStep)
        ensures
            match r {
                TypeIdStep::Done(oid) => self@.type_ids.dom().contains(name@) && self@.type_ids[name@]
                    == oid,
                TypeIdStep::Query { sql } => !self@.type_ids.dom().contains(name@) && sql@
                    == type_id_sql(),
            },
    {
        match self.cache_type_oid.get(name) {
            Some(oid) => TypeIdStep::Done(oid),
            None => TypeIdStep::Query {
                sql: "SELECT oid FROM pg_catalog.pg_type WHERE typname ILIKE $1",
            },
        }
    }

    /// Takes the reply to the query for the identifier of `name`.
    pub fn resume_type_id_by_name(&mut self, name: &str, reply: TypeIdReply) -> (r: Result<
        Oid,
        Error,
    >)
        ensures
            final(self)@ == old(self)@.resume_type_id(name@, reply).0,
            match r {
                Ok(oid) => old(self)@.resume_type_id(name@, reply).1 == Ok::<Oid, ErrorView>(oid),
                Err(e) => old(self)@.resume_type_id(name@, reply).1 == Err::<Oid, ErrorView>(e@),
            },
    {
        match reply {
            TypeIdReply::Row(Some(oid)) => {
                self.cache_type_oid.insert(name.to_owned(), oid);
                Ok(oid)
            },
            TypeIdReply::Row(None) => Err(
                Error::TypeNotFound { typ: PgTypeRef::Name(name.to_owned()) },
            ),
            TypeIdReply::Failed(message) => Err(Error::Protocol(message)),
        }
    }
}

/// A list without a key twice stays so with one more key that it did not
/// hold.
pub proof fn lemma_push_keeps_distinct(refs: Seq<TypeRefView>, r: TypeRefView)
    requires
        distinct(refs),
        !listed(refs, r),
    ensures
        distinct(refs.push(r)),
{
    let pushed = refs.push(r);
    assert forall|i: int, j: int| 0 <= i < j < pushed.len() implies !same_ref(
        #[trigger] pushed[i],
        #[trigger] pushed[j],
    ) by {
        assert(pushed[i] == refs[i]);
        if j < refs.len() {
            assert(pushed[j] == refs[j]);
        }
    }
}

/// A type that the catalog holds is answered from the catalog. With no
/// reference waiting, a request for it hands out no query and changes
/// nothing, however often it is made.
pub proof fn lemma_fetched_is_answered_at_once(c: ConnectionView, oid: u32)
    requires
        c.catalog.find(TypeRefView::Oid(oid)) is Some,
        c.catalog.unfetched.len() == 0,
    ensures
        c.begin(oid) == (
            c,
            ResolveStepView::Done(Ok(c.catalog.find(TypeRefView::Oid(oid))->0)),
        ),
{
}

/// While a session is under way a request fetches nothing: it is answered
/// from the catalog as it is. An identifier that nothing is known of waits
/// from then on, and the session does not end with a type before it has
/// been fetched.
pub proof fn lemma_nested_request_is_left_to_the_session(c: ConnectionView, oid: u32)
    requires
        c.wf(),
        c.session is Some,
    ensures
        c.begin(oid).1 == ResolveStepView::Done(lookup(c.catalog, oid)),
        c.begin(oid).0.session == c.session,
        c.begin(oid).0.catalog == c.catalog.declare(TypeRefView::Oid(oid)),
        c.catalog.state(TypeRefView::Oid(oid)) is Undeclared ==> c.begin(oid).0.catalog.state(
            TypeRefView::Oid(oid),
        ) is Unfetched && c.begin(oid).0.catalog.unfetched.len() > 0,
{
    lemma_declare_state(c.catalog, TypeRefView::Oid(oid), TypeRefView::Oid(oid));
}

/// Once a request has ended with a type, the same request is answered at
/// once with the same type.
pub proof fn lemma_second_request_is_answered_at_once(c: ConnectionView, oid: u32)
    requires
        c.wf(),
        c.begin(oid).1 is Done,
        c.begin(oid).1->Done_0 is Ok,
    ensures
        c.begin(oid).0.begin(oid) == (c.begin(oid).0, c.begin(oid).1),
{
}

/// Once a session has ended with a type, a request for the identifier that
/// the session was begun for is answered at once with the same type.
pub proof fn lemma_request_after_session_is_answered_at_once(c: ConnectionView, reply: QueryReplyView)
    requires
        c.wf(),
        c.session is Some,
        c.resume(reply).1 is Done,
        c.resume(reply).1->Done_0 is Ok,
    ensures
        c.resume(reply).0.begin(c.session->0.oid) == (c.resume(reply).0, c.resume(reply).1),
{
}

/// A session ends only when no reference waits any more, unless a failure
/// ends it; it then answers with what the catalog holds for the identifier
/// that it was begun for. Whenever it ends no session is left on the
/// connection.
pub proof fn lemma_session_ends_drained(c: ConnectionView, reply: QueryReplyView)
    requires
        c.wf(),
        c.session is Some,
        c.resume(reply).1 is Done,
    ensures
        c.resume(reply).0.session is None,
        c.resume(reply).1->Done_0 matches Err(ErrorView::Protocol(_)) || (c.resume(
            reply,
        ).0.catalog.unfetched.len() == 0 && c.resume(reply).1 == ResolveStepView::Done(
            lookup(c.resume(reply).0.catalog, c.session->0.oid),
        )),
{
}

/// A request that begins a session and ends at once leaves no session.
pub proof fn lemma_request_leaves_no_session(c: ConnectionView, oid: u32)
    requires
        c.wf(),
        c.session is None,
        c.begin(oid).1 is Done,
    ensures
        c.begin(oid).0.session is None,
        c.begin(oid).1->Done_0 is Ok ==> c.begin(oid).0.catalog.unfetched.len() == 0,
{
}

/// Every step keeps the connection well formed.
pub proof fn lemma_steps_keep_wf(c: ConnectionView, oid: u32, reply: QueryReplyView)
    requires
        c.wf(),
    ensures
        c.begin(oid).0.wf(),
        c.resume(reply).0.wf(),
{
    lemma_declare_wf(c.catalog, TypeRefView::Oid(oid));
    lemma_unfetched_are_waiting(c.catalog, TypeRefView::Oid(oid));
    if c.catalog.state(TypeRefView::Oid(oid)) is Undeclared {
        lemma_push_keeps_distinct(c.catalog.unfetched, TypeRefView::Oid(oid));
    }
    if c.session is Some {
        let s = c.session->0;
        lemma_flag_missing_wf(c.catalog, s.worklist[s.pos as int]);
        assert forall|t: TypeInfoView| (#[trigger] c.catalog.insert(t)).wf() by {
            lemma_insert_wf(c.catalog, t);
        }
    }
}

/// A reference that waits and whose type arrives under a new identifier is
/// fetched from then on, with that type.
pub proof fn lemma_fetched_type_is_fetched(c: ConnectionView, t: TypeInfoView, q: TypeRefView)
    requires
        c.wf(),
        c.session is Some,
        c.catalog.state(q) is Unfetched,
        c.catalog.find(TypeRefView::Oid(t.oid)) is None,
        ref_matches(q, t),
    ensures
        c.accept(t).0.catalog.state(q) == EntryState::Fetched(t),
        !listed(c.accept(t).0.catalog.unfetched, q),
{
    lemma_insert_state(c.catalog, t, q);
    lemma_insert_wf(c.catalog, t);
    lemma_unfetched_are_waiting(c.catalog.insert(t), q);
}

/// A type that the catalog holds stays as it is through every step.
pub proof fn lemma_steps_keep_fetched(c: ConnectionView, oid: u32, reply: QueryReplyView, q: TypeRefView)
    requires
        c.wf(),
        c.catalog.find(q) is Some,
    ensures
        c.begin(oid).0.catalog.find(q) == c.catalog.find(q),
        c.resume(reply).0.catalog.find(q) == c.catalog.find(q),
{
    lemma_declare_keeps_fetched(c.catalog, TypeRefView::Oid(oid), q);
    if c.session is Some {
        let s = c.session->0;
        lemma_flag_missing_keeps_fetched(c.catalog, s.worklist[s.pos as int], q);
        assert forall|t: TypeInfoView| (#[trigger] c.catalog.insert(t)).find(q) == c.catalog.find(
            q,
        ) by {
            lemma_insert_keeps_fetched(c.catalog, t, q);
        }
    }
}

/// One failed fetch flags a reference as missing, and the session does not
/// stop for it. Where the server has no row for the reference that is being
/// fetched, the catalog holds it as missing from then on; the next query,
/// if there is one, is for another key; and where nothing else waits the
/// session ends with what the catalog holds for the identifier that it was
/// begun for.
pub proof fn lemma_missing_after_one_failure(c: ConnectionView)
    requires
        c.wf(),
        c.session is Some,
        c.session->0.pending is None,
        c.catalog.find(c.session->0.worklist[c.session->0.pos as int]) is None,
    ensures
        ({
            let r = c.session->0.worklist[c.session->0.pos as int];
            let (after, step) = c.resume(QueryReplyView::TypeRow(None));
            &&& after.catalog == c.catalog.flag_missing(r)
            &&& after.catalog.state(r) is Missing
            &&& match step {
                ResolveStepView::Query(query) => query matches CatalogQueryView::TypeByRef(next)
                    && !same_ref(next, r),
                ResolveStepView::Done(done) => done == lookup(after.catalog, c.session->0.oid)
                    && after.session is None && after.catalog.unfetched.len() == 0,
            }
        }),
{
    let s = c.session->0;
    let r = s.worklist[s.pos as int];
    let (after, step) = c.resume(QueryReplyView::TypeRow(None));
    lemma_flag_missing_state(c.catalog, r, r);
    lemma_flag_missing_wf(c.catalog, r);
    if let TypeRefView::Name(name) = r {
        lemma_names_match_reflexive(name);
    }
    if s.pos + 1 < s.worklist.len() {
        let next = s.worklist[s.pos as int + 1];
        if same_ref(next, r) {
            lemma_same_ref_symmetric(next, r);
        }
    } else if after.catalog.unfetched.len() > 0 {
        let next = after.catalog.unfetched[0];
        lemma_unfetched_are_waiting(after.catalog, r);
        if same_ref(next, r) {
            assert(listed(after.catalog.unfetched, r));
        }
    }
}

/// A type that waits and is asked for is fetched in its turn, and once: the
/// session that the request begins has the waiting references as its
/// worklist, and no key stands on it twice. An identifier that nothing was
/// known of is asked for after them.
pub proof fn lemma_waiting_type_is_asked_for_once(c: ConnectionView, oid: u32)
    requires
        c.wf(),
        c.session is None,
        c.catalog.state(TypeRefView::Oid(oid)) is Unfetched || c.catalog.state(
            TypeRefView::Oid(oid),
        ) is Undeclared,
    ensures
        c.begin(oid).0.session is Some,
        c.begin(oid).0.catalog == c.catalog,
        distinct(c.begin(oid).0.session->0.worklist),
        c.begin(oid).0.session->0.worklist == if c.catalog.state(TypeRefView::Oid(oid))
            is Unfetched {
            c.catalog.unfetched
        } else {
            c.catalog.unfetched.push(TypeRefView::Oid(oid))
        },
        c.begin(oid).1 == ResolveStepView::Query(
            CatalogQueryView::TypeByRef(c.begin(oid).0.session->0.worklist[0]),
        ),
{
    lemma_unfetched_are_waiting(c.catalog, TypeRefView::Oid(oid));
    if c.catalog.state(TypeRefView::Oid(oid)) is Undeclared {
        lemma_push_keeps_distinct(c.catalog.unfetched, TypeRefView::Oid(oid));
    }
}

/// A reference that is flagged as missing is not fetched again. Declaring
/// it changes nothing, so that it never waits; and a request for a missing
/// identifier hands out no query for it: it fails at once where nothing
/// waits, and otherwise the session fetches what does wait and no more.
pub proof fn lemma_missing_is_not_fetched_again(c: ConnectionView, oid: u32, r: TypeRefView)
    requires
        c.wf(),
        c.session is None,
        c.catalog.state(TypeRefView::Oid(oid)) is Missing,
    ensures
        c.catalog.state(r) is Missing ==> c.catalog.declare(r) == c.catalog,
        c.catalog.unfetched.len() == 0 ==> c.begin(oid) == (
            c,
            ResolveStepView::Done(
                Err(ErrorView::TypeNotFound { typ: TypeRefView::Oid(oid) }),
            ),
        ),
        c.catalog.unfetched.len() > 0 ==> c.begin(oid).1 == ResolveStepView::Query(
            CatalogQueryView::TypeByRef(c.catalog.unfetched[0]),
        ) && c.begin(oid).0.session->0.worklist == c.catalog.unfetched,
        !listed(c.catalog.unfetched, TypeRefView::Oid(oid)),
{
    lemma_unfetched_are_waiting(c.catalog, TypeRefView::Oid(oid));
}

/// The references of a type that arrives are fetched in the same session.
/// A reference of the type that nothing was known of waits after the type
/// was taken; and while any reference waits the session does not end: the
/// next step is a query.
pub proof fn lemma_references_are_swept(c: ConnectionView, t: TypeInfoView, q: TypeRefView)
    requires
        c.wf(),
        c.session is Some,
        c.catalog.find(TypeRefView::Oid(t.oid)) is None,
    ensures
        c.catalog.state(q) is Undeclared && listed(kind_refs(t.kind), q) && !ref_matches(q, t)
            ==> c.accept(t).0.catalog.state(q) is Unfetched,
        c.accept(t).0.catalog.unfetched.len() > 0 ==> c.accept(t).1 is Query
            && c.accept(t).0.session is Some,
{
    lemma_insert_state(c.catalog, t, q);
}

/// Whether a reply brings a row: every reply does but a type lookup and a
/// range lookup that found none.
pub open spec fn has_row(reply: QueryReplyView) -> bool {
    !(reply matches QueryReplyView::TypeRow(None)) && !(reply matches QueryReplyView::RangeSubtype(
        None,
    ))
}

/// The run of a session over a list of replies: each reply is taken in its
/// turn until the session ends or the replies run out. The result is the
/// connection then, and the last step.
pub open spec fn run(c: ConnectionView, replies: Seq<QueryReplyView>) -> (
    ConnectionView,
    ResolveStepView,
)
    recommends
        replies.len() > 0,
    decreases replies.len(),
{
    let (next, step) = c.resume(replies[0]);
    if replies.len() <= 1 || step is Done {
        (next, step)
    } else {
        run(next, replies.skip(1))
    }
}

/// A key that the catalog knows of does not become unknown by a step of the
/// session.
pub proof fn lemma_step_keeps_known(c: ConnectionView, reply: QueryReplyView, q: TypeRefView)
    requires
        c.wf(),
        c.session is Some,
        !(c.catalog.state(q) is Undeclared),
    ensures
        !(c.resume(reply).0.catalog.state(q) is Undeclared),
{
    let s = c.session->0;
    lemma_flag_missing_state(c.catalog, s.worklist[s.pos as int], q);
    assert forall|t: TypeInfoView| !((#[trigger] c.catalog.insert(t)).state(q) is Undeclared) by {
        lemma_insert_state(c.catalog, t, q);
    }
}

/// A step with a reply that brings a row flags nothing as missing.
pub proof fn lemma_step_with_row_flags_nothing(c: ConnectionView, reply: QueryReplyView)
    requires
        c.session is Some,
        has_row(reply),
    ensures
        c.resume(reply).0.catalog.missing == c.catalog.missing,
{
    assert forall|t: TypeInfoView| (#[trigger] c.catalog.insert(t)).missing == c.catalog.missing by {
        if c.catalog.find(TypeRefView::Oid(t.oid)) is None {
            let mid = CatalogView {
                types: c.catalog.types.push(t),
                unfetched: c.catalog.unfetched.filter(not_denoting(t)),
                missing: c.catalog.missing,
            };
            lemma_declare_all_state(mid, kind_refs(t.kind), TypeRefView::Oid(t.oid));
        }
    }
}

/// A whole run of a session. Where the run ends, and not by a failure:
/// no session is left and no reference waits; the answer is what the
/// catalog then holds for the identifier that the session was begun for;
/// a type that the catalog held at any point of the run it still holds; and
/// a key that the catalog knew of at the start is fetched by then, or is
/// flagged as missing. It is fetched where every reply of the run brought a
/// row and the key was not flagged before.
///
/// The law holds from every point of a run on, the replies that are left
/// being a run too: so a reference that a type brings along while the
/// session is under way, such as the type of a composite's field, is
/// fetched before the session ends.
pub proof fn lemma_run_fetches_what_waits(
    c: ConnectionView,
    replies: Seq<QueryReplyView>,
    q: TypeRefView,
)
    requires
        c.wf(),
        c.session is Some,
        replies.len() > 0,
        run(c, replies).1 is Done,
        !(run(c, replies).1->Done_0 matches Err(ErrorView::Protocol(_))),
    ensures
        run(c, replies).0.wf(),
        run(c, replies).0.session is None,
        run(c, replies).0.catalog.unfetched.len() == 0,
        run(c, replies).1 == ResolveStepView::Done(
            lookup(run(c, replies).0.catalog, c.session->0.oid),
        ),
        c.catalog.find(q) is Some ==> run(c, replies).0.catalog.find(q) == c.catalog.find(q),
        !(c.catalog.state(q) is Undeclared) ==> run(c, replies).0.catalog.state(q) is Fetched
            || run(c, replies).0.catalog.state(q) is Missing,
        (forall|i: int| 0 <= i < replies.len() ==> has_row(#[trigger] replies[i])) && (
        c.catalog.state(q) is Unfetched || c.catalog.state(q) is Fetched) ==> run(
            c,
            replies,
        ).0.catalog.state(q) is Fetched,
        run(c, replies).0.catalog.state(q) is Missing && !(c.catalog.state(q) is Missing)
            ==> exists|i: int| 0 <= i < replies.len() && !has_row(#[trigger] replies[i]),
    decreases replies.len(),
{
    let (next, step) = c.resume(replies[0]);
    lemma_steps_keep_wf(c, 0, replies[0]);
    if c.catalog.find(q) is Some {
        lemma_steps_keep_fetched(c, 0, replies[0], q);
    }
    if !(c.catalog.state(q) is Undeclared) {
        lemma_step_keeps_known(c, replies[0], q);
    }
    if has_row(replies[0]) {
        lemma_step_with_row_flags_nothing(c, replies[0]);
    }
    if replies.len() <= 1 || step is Done {
        lemma_session_ends_drained(c, replies[0]);
        lemma_unfetched_are_waiting(next.catalog, q);
    } else {
        let rest = replies.skip(1);
        assert(next.session is Some && next.session->0.oid == c.session->0.oid);
        lemma_run_fetches_what_waits(next, rest, q);
        assert forall|i: int| 0 <= i < rest.len() implies rest[i] == replies[i + 1] by {}
        if forall|i: int| 0 <= i < replies.len() ==> has_row(#[trigger] replies[i]) {
            assert forall|i: int| 0 <= i < rest.len() implies has_row(#[trigger] rest[i]) by {
                assert(has_row(replies[i + 1]));
            }
        }
        if exists|i: int| 0 <= i < rest.len() && !has_row(#[trigger] rest[i]) {
            let i = choose|i: int| 0 <= i < rest.len() && !has_row(#[trigger] rest[i]);
            assert(!has_row(replies[i + 1]));
        }
    }
    if !has_row(replies[0]) {
        assert(0 <= 0 < replies.len() && !has_row(replies[0]));
    }
}

/// A whole request that begins a session. Where the run of the session
/// ends, and not by a failure, an identifier that waited when it was asked
/// for is answered with its type where every reply brought a row, and every
/// reference that waited then is fetched as well.
pub proof fn lemma_request_fetches_what_waits(
    c: ConnectionView,
    oid: u32,
    replies: Seq<QueryReplyView>,
    q: TypeRefView,
)
    requires
        c.wf(),
        c.session is None,
        c.catalog.state(TypeRefView::Oid(oid)) is Unfetched,
        c.catalog.state(q) is Unfetched,
        replies.len() > 0,
        forall|i: int| 0 <= i < replies.len() ==> has_row(#[trigger] replies[i]),
        run(c.begin(oid).0, replies).1 is Done,
        !(run(c.begin(oid).0, replies).1->Done_0 matches Err(ErrorView::Protocol(_))),
    ensures
        c.begin(oid).1 is Query,
        run(c.begin(oid).0, replies).0.session is None,
        run(c.begin(oid).0, replies).0.catalog.unfetched.len() == 0,
        run(c.begin(oid).0, replies).0.catalog.state(q) is Fetched,
        run(c.begin(oid).0, replies).1 matches ResolveStepView::Done(Ok(t)) && t.oid == oid
            && run(c.begin(oid).0, replies).0.catalog.find(TypeRefView::Oid(oid)) == Some(t),
{
    let started = c.begin(oid).0;
    lemma_waiting_type_is_asked_for_once(c, oid);
    lemma_steps_keep_wf(c, oid, replies[0]);
    lemma_run_fetches_what_waits(started, replies, q);
    lemma_run_fetches_what_waits(started, replies, TypeRefView::Oid(oid));
    let last = run(started, replies).0;
    lemma_find_from(last.catalog.types, TypeRefView::Oid(oid), 0);
}

/// A run that has not ended after its first `k` replies goes on from there
/// with the replies that are left.
pub proof fn lemma_run_splits(c: ConnectionView, replies: Seq<QueryReplyView>, k: int)
    requires
        0 < k < replies.len(),
        run(c, replies.take(k)).1 is Query,
    ensures
        run(c, replies) == run(run(c, replies.take(k)).0, replies.skip(k)),
    decreases k,
{
    let head = replies.take(k);
    assert(head[0] == replies[0]);
    let (next, step) = c.resume(replies[0]);
    if k == 1 {
        assert(replies.skip(1) =~= replies.skip(k));
    } else {
        assert(head.skip(1) =~= replies.skip(1).take(k - 1));
        lemma_run_splits(next, replies.skip(1), k - 1);
        assert(replies.skip(1).skip(k - 1) =~= replies.skip(k));
    }
}

/// What a type brings along is fetched in the same run. A key that the
/// catalog knows of after the first `k` replies of a run, such as the type
/// of a field of a composite that has just arrived, is fetched when the run
/// ends, or flagged as missing; it is fetched where it was not flagged
/// then and every later reply brings a row.
pub proof fn lemma_run_fetches_what_a_type_brings(
    c: ConnectionView,
    replies: Seq<QueryReplyView>,
    k: int,
    q: TypeRefView,
)
    requires
        c.wf(),
        c.session is Some,
        0 < k < replies.len(),
        run(c, replies.take(k)).1 is Query,
        !(run(c, replies.take(k)).0.catalog.state(q) is Undeclared),
        run(c, replies).1 is Done,
        !(run(c, replies).1->Done_0 matches Err(ErrorView::Protocol(_))),
    ensures
        run(c, replies).0.catalog.unfetched.len() == 0,
        run(c, replies).0.catalog.state(q) is Fetched || run(c, replies).0.catalog.state(q)
            is Missing,
        (forall|i: int| k <= i < replies.len() ==> has_row(#[trigger] replies[i])) && !(run(
            c,
            replies.take(k),
        ).0.catalog.state(q) is Missing) ==> run(c, replies).0.catalog.state(q) is Fetched,
{
    let middle = run(c, replies.take(k)).0;
    let rest = replies.skip(k);
    lemma_run_splits(c, replies, k);
    lemma_run_reaches(c, replies.take(k));
    lemma_run_fetches_what_waits(middle, rest, q);
    if forall|i: int| k <= i < replies.len() ==> has_row(#[trigger] replies[i]) {
        assert forall|i: int| 0 <= i < rest.len() implies has_row(#[trigger] rest[i]) by {
            assert(has_row(replies[i + k]));
        }
    }
}

/// A run that has not ended leaves a well-formed connection with its
/// session.
pub proof fn lemma_run_reaches(c: ConnectionView, replies: Seq<QueryReplyView>)
    requires
        c.wf(),
        c.session is Some,
        replies.len() > 0,
        run(c, replies).1 is Query,
    ensures
        run(c, replies).0.wf(),
        run(c, replies).0.session is Some,
    decreases replies.len(),
{
    let (next, step) = c.resume(replies[0]);
    lemma_steps_keep_wf(c, 0, replies[0]);
    if replies.len() > 1 && step is Query {
        lemma_run_reaches(next, replies.skip(1));
    }
}

} // verus!
