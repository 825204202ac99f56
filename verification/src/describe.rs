//! The description of the rows and of the parameters of a statement: the
//! server names types by identifier, and the library resolves them.

use vstd::prelude::*;
use crate::connection::{
    lemma_steps_keep_fetched, lemma_steps_keep_wf, lookup, ConnectionView, PgConnection,
    QueryReply, QueryReplyView, ResolveStep, ResolveStepView,
};
use crate::error::{Error, ErrorView};
use crate::text::NameMap;
use crate::type_info::{Oid, PgTypeInfo, PgTypeRef, TypeInfoView, TypeRefView};
use crate::type_row::{CatalogQuery, CatalogQueryView};

verus! {

/// A field of a row as the server describes it.
#[derive(Debug)]
pub struct Field {
    pub name: String,
    /// The relation that the column comes from; 0 where it comes from none.
    pub relation_id: Oid,
    /// The number of the attribute within the relation; 0 where there is
    /// none.
    pub relation_attribute_no: i16,
    /// The identifier of the type.
    pub data_type_id: Oid,
}

/// A field as plain values.
pub struct FieldView {
    pub name: Seq<char>,
    pub relation_id: u32,
    pub relation_attribute_no: i16,
    pub data_type_id: u32,
}

impl View for Field {
    type V = FieldView;

    open spec fn view(&self) -> FieldView {
        FieldView {
            name: self.name@,
            relation_id: self.relation_id.0,
            relation_attribute_no: self.relation_attribute_no,
            data_type_id: self.data_type_id.0,
        }
    }
}

/// The fields of the rows of a statement, in order.
#[derive(Debug)]
pub struct RowDescription {
    pub fields: Vec<Field>,
}

/// The types of the parameters of a statement, in order.
#[derive(Debug)]
pub struct ParameterDescription {
    pub types: Vec<Oid>,
}

/// A column of a row: where it stands, its name, its type, and where it
/// comes from.
#[derive(Debug)]
pub struct PgColumn {
    pub ordinal: usize,
    pub name: String,
    pub type_info: PgTypeInfo,
    pub relation_id: Oid,
    pub relation_attribute_no: i16,
}

/// A column as plain values.
pub struct ColumnView {
    pub ordinal: nat,
    pub name: Seq<char>,
    pub type_info: TypeInfoView,
    pub relation_id: u32,
    pub relation_attribute_no: i16,
}

impl View for PgColumn {
    type V = ColumnView;

    open spec fn view(&self) -> ColumnView {
        ColumnView {
            ordinal: self.ordinal as nat,
            name: self.name@,
            type_info: self.type_info@,
            relation_id: self.relation_id.0,
            relation_attribute_no: self.relation_attribute_no,
        }
    }
}

/// A list of fields as plain values.
pub open spec fn fields_seq(fields: Seq<Field>) -> Seq<FieldView> {
    Seq::new(fields.len(), |i: int| fields[i]@)
}

/// A list of columns as plain values.
pub open spec fn columns_seq(columns: Seq<PgColumn>) -> Seq<ColumnView> {
    Seq::new(columns.len(), |i: int| columns[i]@)
}

/// A list of types as plain values.
pub open spec fn types_seq(types: Seq<PgTypeInfo>) -> Seq<TypeInfoView> {
    Seq::new(types.len(), |i: int| types[i]@)
}

/// A list of identifiers as plain values.
pub open spec fn oids_seq(oids: Seq<Oid>) -> Seq<u32> {
    Seq::new(oids.len(), |i: int| oids[i].0)
}

/// The index from names to positions for a list of names: of two equal
/// names the later one counts.
pub open spec fn name_index(names: Seq<Seq<char>>) -> Map<Seq<char>, usize>
    decreases names.len(),
{
    if names.len() == 0 {
        Map::empty()
    } else {
        name_index(names.drop_last()).insert(names.last(), (names.len() - 1) as usize)
    }
}

/// The index holds the names of the list, each with its last position.
pub proof fn lemma_name_index(names: Seq<Seq<char>>, name: Seq<char>)
    requires
        names.len() <= usize::MAX,
    ensures
        name_index(names).dom().contains(name) <==> exists|i: int|
            0 <= i < names.len() && #[trigger] names[i] == name,
        name_index(names).dom().contains(name) ==> {
            let at = name_index(names)[name] as int;
            &&& 0 <= at < names.len()
            &&& names[at] == name
            &&& forall|j: int| at < j < names.len() ==> #[trigger] names[j] != name
        },
    decreases names.len(),
{
    if names.len() > 0 {
        let front = names.drop_last();
        lemma_name_index(front, name);
        if names.last() == name {
            assert(names[names.len() - 1] == name);
        } else {
            if name_index(front).dom().contains(name) {
                let i = choose|i: int| 0 <= i < front.len() && #[trigger] front[i] == name;
                assert(names[i] == name);
                let at = name_index(front)[name] as int;
                assert(names[at] == front[at]);
                assert forall|j: int| at < j < names.len() implies #[trigger] names[j] != name by {
                    if j < front.len() {
                        assert(front[j] == names[j]);
                    }
                }
            }
            if exists|i: int| 0 <= i < names.len() && #[trigger] names[i] == name {
                let i = choose|i: int| 0 <= i < names.len() && #[trigger] names[i] == name;
                assert(front[i] == name);
            }
        }
    }
}

/// The positions of the columns by name.
pub type ColumnNames = NameMap<usize>;

/// The columns for the fields of a row and the types that their
/// identifiers resolved to: each column stands where its field stands.
pub open spec fn columns_of(fields: Seq<FieldView>, types: Seq<TypeInfoView>) -> Seq<ColumnView> {
    Seq::new(
        fields.len(),
        |i: int|
            ColumnView {
                ordinal: i as nat,
                name: fields[i].name,
                type_info: types[i],
                relation_id: fields[i].relation_id,
                relation_attribute_no: fields[i].relation_attribute_no,
            },
    )
}

/// The names of a list of fields, in order.
pub open spec fn field_names(fields: Seq<FieldView>) -> Seq<Seq<char>> {
    Seq::new(fields.len(), |i: int| fields[i].name)
}

/// Builds the columns for the fields of a row from the types that their
/// identifiers resolved to, and the index of their names.
pub fn build_columns(fields: Vec<Field>, types: Vec<PgTypeInfo>) -> (r: (Vec<PgColumn>, ColumnNames))
    requires
        fields.len() == types.len(),
    ensures
        columns_seq(r.0@) == columns_of(fields_seq(fields@), types_seq(types@)),
        r.1@ == name_index(field_names(fields_seq(fields@))),
{
    let mut columns: Vec<PgColumn> = Vec::new();
    let mut column_names = ColumnNames::new();
    let mut index: usize = 0;
    let ghost names = field_names(fields_seq(fields@));
    while index < fields.len()
        invariant
            index <= fields.len(),
            fields.len() == types.len(),
            names == field_names(fields_seq(fields@)),
            columns.len() == index,
            forall|j: int|
                0 <= j < index ==> (#[trigger] columns@[j])@ == columns_of(
                    fields_seq(fields@),
                    types_seq(types@),
                )[j],
            column_names@ == name_index(names.take(index as int)),
        decreases fields.len() - index,
    {
        let field = &fields[index];
        let name = field.name.clone();
        let column = PgColumn {
            ordinal: index,
            name: name.clone(),
            type_info: types[index].clone(),
            relation_id: field.relation_id,
            relation_attribute_no: field.relation_attribute_no,
        };
        columns.push(column);
        column_names.insert(name, index);
        proof {
            assert(names.take(index + 1).drop_last() =~= names.take(index as int));
        }
        index = index + 1;
    }
    proof {
        assert(names.take(index as int) =~= names);
    }
    (columns, column_names)
}

/// A list of type identifiers that are being resolved one after the other:
/// the types found so far stand for the first identifiers.
pub struct PendingTypes {
    oids: Vec<Oid>,
    types: Vec<PgTypeInfo>,
    should_fetch: bool,
}

/// A list that is being resolved, as plain values.
pub struct PendingTypesView {
    pub oids: Seq<u32>,
    pub types: Seq<TypeInfoView>,
    /// Whether a type that the catalog lacks is fetched; otherwise it is an
    /// error.
    pub should_fetch: bool,
}

impl View for PendingTypes {
    type V = PendingTypesView;

    closed spec fn view(&self) -> PendingTypesView {
        PendingTypesView {
            oids: oids_seq(self.oids@),
            types: types_seq(self.types@),
            should_fetch: self.should_fetch,
        }
    }
}

/// What resolving a list of types wants next: a query to be run, after
/// which it goes on from the state handed out with it, or nothing more.
pub enum TypesStep {
    Query(CatalogQuery, PendingTypes),
    Done(Result<Vec<PgTypeInfo>, Error>),
}

/// A step as plain values.
pub enum TypesStepView {
    Query(CatalogQueryView, PendingTypesView),
    Done(Result<Seq<TypeInfoView>, ErrorView>),
}

impl View for TypesStep {
    type V = TypesStepView;

    open spec fn view(&self) -> TypesStepView {
        match self {
            TypesStep::Query(query, pending) => TypesStepView::Query(query@, pending@),
            TypesStep::Done(Ok(types)) => TypesStepView::Done(Ok(types_seq(types@))),
            TypesStep::Done(Err(e)) => TypesStepView::Done(Err(e@)),
        }
    }
}

impl PendingTypesView {
    /// No more types were found than there are identifiers.
    pub open spec fn wf(self) -> bool {
        self.types.len() <= self.oids.len()
    }

    /// The list with the type for its next identifier.
    pub open spec fn with_type(self, t: TypeInfoView) -> PendingTypesView {
        PendingTypesView { types: self.types.push(t), ..self }
    }
}

/// Resolves the identifiers that are left, in order. Each is asked of the
/// connection, or only looked up in the catalog where nothing may be
/// fetched. The first identifier that does not resolve ends the list with
/// its error; a query that the connection hands out suspends it.
pub open spec fn resolve_types(c: ConnectionView, p: PendingTypesView) -> (
    ConnectionView,
    TypesStepView,
)
    decreases p.oids.len() - p.types.len(),
{
    if p.types.len() >= p.oids.len() {
        (c, TypesStepView::Done(Ok(p.types)))
    } else {
        let oid = p.oids[p.types.len() as int];
        if p.should_fetch {
            let (next, step) = c.begin(oid);
            match step {
                ResolveStepView::Query(query) => (next, TypesStepView::Query(query, p)),
                ResolveStepView::Done(Err(e)) => (next, TypesStepView::Done(Err(e))),
                ResolveStepView::Done(Ok(t)) => resolve_types(next, p.with_type(t)),
            }
        } else {
            match lookup(c.catalog, oid) {
                Err(e) => (c, TypesStepView::Done(Err(e))),
                Ok(t) => resolve_types(c, p.with_type(t)),
            }
        }
    }
}

/// Goes on with a suspended list once the reply to its query is there.
pub open spec fn resume_types(c: ConnectionView, p: PendingTypesView, reply: QueryReplyView) -> (
    ConnectionView,
    TypesStepView,
) {
    let (next, step) = c.resume(reply);
    match step {
        ResolveStepView::Query(query) => (next, TypesStepView::Query(query, p)),
        ResolveStepView::Done(Err(e)) => (next, TypesStepView::Done(Err(e))),
        ResolveStepView::Done(Ok(t)) => if p.types.len() < p.oids.len() {
            resolve_types(next, p.with_type(t))
        } else {
            (next, TypesStepView::Done(Ok(p.types)))
        },
    }
}

/// The description of a row that is being resolved.
pub struct RowDescriber {
    fields: Vec<Field>,
    pending: PendingTypes,
}

/// The description of a row that is being resolved, as plain values.
pub struct RowDescriberView {
    pub fields: Seq<FieldView>,
    pub pending: PendingTypesView,
}

impl View for RowDescriber {
    type V = RowDescriberView;

    closed spec fn view(&self) -> RowDescriberView {
        RowDescriberView { fields: fields_seq(self.fields@), pending: self.pending@ }
    }
}

/// The identifiers of the types of a list of fields, in order.
pub open spec fn field_types(fields: Seq<FieldView>) -> Seq<u32> {
    Seq::new(fields.len(), |i: int| fields[i].data_type_id)
}

impl RowDescriberView {
    /// The identifiers that are being resolved are those of the fields.
    pub open spec fn wf(self) -> bool {
        &&& self.pending.wf()
        &&& self.pending.oids == field_types(self.fields)
    }
}

/// What describing a row wants next.
pub enum DescribeStep {
    Query(CatalogQuery, RowDescriber),
    Done(Result<(Vec<PgColumn>, ColumnNames), Error>),
}

/// A step as plain values.
pub enum DescribeStepView {
    Query(CatalogQueryView, RowDescriberView),
    Done(Result<(Seq<ColumnView>, Map<Seq<char>, usize>), ErrorView>),
}

impl View for DescribeStep {
    type V = DescribeStepView;

    open spec fn view(&self) -> DescribeStepView {
        match self {
            DescribeStep::Query(query, describer) => DescribeStepView::Query(query@, describer@),
            DescribeStep::Done(Ok((columns, names))) => DescribeStepView::Done(
                Ok((columns_seq(columns@), names@)),
            ),
            DescribeStep::Done(Err(e)) => DescribeStepView::Done(Err(e@)),
        }
    }
}

/// The step of a row description for the step of resolving its types: with
/// all types there, the columns are built.
pub open spec fn describe_step(fields: Seq<FieldView>, step: TypesStepView) -> DescribeStepView {
    match step {
        TypesStepView::Query(query, pending) => DescribeStepView::Query(
            query,
            RowDescriberView { fields, pending },
        ),
        TypesStepView::Done(Err(e)) => DescribeStepView::Done(Err(e)),
        TypesStepView::Done(Ok(types)) => DescribeStepView::Done(
            Ok((columns_of(fields, types), name_index(field_names(fields)))),
        ),
    }
}

fn field_type_ids(fields: &Vec<Field>) -> (r: Vec<Oid>)
    ensures
        oids_seq(r@) == field_types(fields_seq(fields@)),
{
    let mut oids: Vec<Oid> = Vec::new();
    let mut i: usize = 0;
    while i < fields.len()
        invariant
            i <= fields.len(),
            oids.len() == i,
            forall|j: int| 0 <= j < i ==> (#[trigger] oids@[j]).0 == fields@[j].data_type_id.0,
        decreases fields.len() - i,
    {
        oids.push(fields[i].data_type_id);
        i = i + 1;
    }
    oids
}

impl PgConnection {
    fn resolve_types(&mut self, list: PendingTypes) -> (r: TypesStep)
        requires
            old(self)@.wf(),
            list@.wf(),
        ensures
            (final(self)@, r@) == resolve_types(old(self)@, list@),
            final(self)@.wf(),
            r matches TypesStep::Query(_, p) ==> p@.oids == list@.oids && p@.wf(),
            r matches TypesStep::Done(Ok(types)) ==> types.len() == list@.oids.len(),
    {
        let ghost start = list@;
        let mut pending = list;
        while pending.types.len() < pending.oids.len()
            invariant
                self@.wf(),
                pending@.wf(),
                start == list@,
                pending@.oids == start.oids,
                pending@.should_fetch == start.should_fetch,
                resolve_types(old(self)@, start) == resolve_types(self@, pending@),
            decreases pending.oids.len() - pending.types.len(),
        {
            let oid = pending.oids[pending.types.len()];
            let found = if pending.should_fetch {
                match self.maybe_fetch_type_info_by_oid(oid) {
                    ResolveStep::Query(query) => {
                        return TypesStep::Query(query, pending);
                    },
                    ResolveStep::Done(found) => found,
                }
            } else {
                match self.catalog().resolve_type_info(&PgTypeRef::Oid(oid)) {
                    Ok(t) => Ok(t.clone()),
                    Err(_) => Err(Error::TypeNotFound { typ: PgTypeRef::Oid(oid) }),
                }
            };
            match found {
                Err(e) => {
                    return TypesStep::Done(Err(e));
                },
                Ok(t) => {
                    let ghost before = types_seq(pending.types@);
                    pending.types.push(t);
                    assert(types_seq(pending.types@) =~= before.push(t@));
                },
            }
        }
        TypesStep::Done(Ok(pending.types))
    }

    fn resume_types(&mut self, pending: PendingTypes, reply: QueryReply) -> (r: TypesStep)
        requires
            old(self)@.wf(),
            pending@.wf(),
        ensures
            (final(self)@, r@) == resume_types(old(self)@, pending@, reply@),
            final(self)@.wf(),
            r matches TypesStep::Query(_, p) ==> p@.oids == pending@.oids && p@.wf(),
            r matches TypesStep::Done(Ok(types)) ==> types.len() == pending@.oids.len(),
    {
        match self.resume_fetch(reply) {
            ResolveStep::Query(query) => TypesStep::Query(query, pending),
            ResolveStep::Done(Err(e)) => TypesStep::Done(Err(e)),
            ResolveStep::Done(Ok(t)) => {
                let mut pending = pending;
                if pending.types.len() < pending.oids.len() {
                    let ghost before = types_seq(pending.types@);
                    pending.types.push(t);
                    assert(types_seq(pending.types@) =~= before.push(t@));
                    self.resolve_types(pending)
                } else {
                    TypesStep::Done(Ok(pending.types))
                }
            },
        }
    }

    /// Resolves the types of the parameters of a statement, in order.
    pub fn handle_parameter_description(&mut self, desc: ParameterDescription) -> (r: TypesStep)
        requires
            old(self)@.wf(),
        ensures
            (final(self)@, r@) == resolve_types(
                old(self)@,
                PendingTypesView {
                    oids: oids_seq(desc.types@),
                    types: Seq::empty(),
                    should_fetch: true,
                },
            ),
            final(self)@.wf(),
            r matches TypesStep::Query(_, p) ==> p@.wf(),
    {
        let pending = PendingTypes { oids: desc.types, types: Vec::new(), should_fetch: true };
        assert(pending@.types =~= Seq::empty());
        self.resolve_types(pending)
    }

    /// Goes on with the types of the parameters, with the reply to the
    /// query that was handed out last.
    pub fn resume_parameter_description(&mut self, pending: PendingTypes, reply: QueryReply) -> (r:
        TypesStep)
        requires
            old(self)@.wf(),
            pending@.wf(),
        ensures
            (final(self)@, r@) == resume_types(old(self)@, pending@, reply@),
            final(self)@.wf(),
            r matches TypesStep::Query(_, p) ==> p@.wf(),
    {
        self.resume_types(pending, reply)
    }

    fn finish_row_description(fields: Vec<Field>, step: TypesStep) -> (r: DescribeStep)
        requires
            step matches TypesStep::Done(Ok(types)) ==> types.len() == fields.len(),
        ensures
            r@ == describe_step(fields_seq(fields@), step@),
    {
        match step {
            TypesStep::Query(query, pending) => DescribeStep::Query(
                query,
                RowDescriber { fields, pending },
            ),
            TypesStep::Done(Err(e)) => DescribeStep::Done(Err(e)),
            TypesStep::Done(Ok(types)) => DescribeStep::Done(Ok(build_columns(fields, types))),
        }
    }

    /// Describes the columns of the rows of a statement.
    ///
    /// A statement that gives no rows has no description, and no columns.
    /// Each field becomes the column at its position, with the type that
    /// its identifier resolves to. With `should_fetch` a type that the
    /// catalog lacks is fetched; without it such a type is an error, and
    /// nothing is asked of the server.
    pub fn handle_row_description(&mut self, desc: Option<RowDescription>, should_fetch: bool) -> (r:
        DescribeStep)
        requires
            old(self)@.wf(),
        ensures
            final(self)@.wf(),
            match desc {
                None => final(self)@ == old(self)@ && r@ == DescribeStepView::Done(
                    Ok((Seq::<ColumnView>::empty(), Map::<Seq<char>, usize>::empty())),
                ),
                Some(desc) => {
                    let step = resolve_types(
                        old(self)@,
                        PendingTypesView {
                            oids: field_types(fields_seq(desc.fields@)),
                            types: Seq::empty(),
                            should_fetch,
                        },
                    );
                    final(self)@ == step.0 && r@ == describe_step(fields_seq(desc.fields@), step.1)
                },
            },
            r matches DescribeStep::Query(_, d) ==> d@.wf(),
    {
        let desc = match desc {
            Some(desc) => desc,
            None => {
                let columns: Vec<PgColumn> = Vec::new();
                assert(columns_seq(columns@) =~= Seq::empty());
                return DescribeStep::Done(Ok((columns, ColumnNames::new())));
            },
        };
        let pending = PendingTypes {
            oids: field_type_ids(&desc.fields),
            types: Vec::new(),
            should_fetch,
        };
        assert(pending@.types =~= Seq::empty());
        let step = self.resolve_types(pending);
        Self::finish_row_description(desc.fields, step)
    }

    /// Goes on with the description of a row, with the reply to the query
    /// that was handed out last.
    pub fn resume_row_description(&mut self, describer: RowDescriber, reply: QueryReply) -> (r:
        DescribeStep)
        requires
            old(self)@.wf(),
            describer@.wf(),
        ensures
            final(self)@.wf(),
            ({
                let step = resume_types(old(self)@, describer@.pending, reply@);
                final(self)@ == step.0 && r@ == describe_step(describer@.fields, step.1)
            }),
            r matches DescribeStep::Query(_, d) ==> d@.wf(),
    {
        let RowDescriber { fields, pending } = describer;
        let step = self.resume_types(pending, reply);
        Self::finish_row_description(fields, step)
    }
}

/// The types found so far are those that the catalog holds for the first
/// identifiers of the list.
pub open spec fn resolved_in(p: PendingTypesView, c: ConnectionView) -> bool {
    forall|i: int|
        0 <= i < p.types.len() && i < p.oids.len() ==> c.catalog.find(
            TypeRefView::Oid(#[trigger] p.oids[i]),
        ) == Some(p.types[i])
}

/// The session of the connection was begun for the identifier that the
/// list has to resolve next.
pub open spec fn asked_for(c: ConnectionView, p: PendingTypesView) -> bool {
    &&& c.session is Some
    &&& p.types.len() < p.oids.len()
    &&& c.session->0.oid == p.oids[p.types.len() as int]
}

/// Where a list of identifiers resolves, there is one type for each, and it
/// is the type that the catalog then holds for the identifier. A list that
/// is suspended still has identifiers to resolve, and what it found so far
/// is in the catalog.
pub proof fn lemma_resolved_types(c: ConnectionView, p: PendingTypesView)
    requires
        c.wf(),
        p.wf(),
        resolved_in(p, c),
    ensures
        resolve_types(c, p).0.wf(),
        match resolve_types(c, p).1 {
            TypesStepView::Done(Ok(types)) => types.len() == p.oids.len() && resolved_in(
                PendingTypesView { types, ..p },
                resolve_types(c, p).0,
            ),
            TypesStepView::Query(_, suspended) => suspended.oids == p.oids && suspended.types.len()
                < p.oids.len() && resolved_in(suspended, resolve_types(c, p).0) && asked_for(
                resolve_types(c, p).0,
                suspended,
            ),
            TypesStepView::Done(Err(_)) => true,
        },
    decreases p.oids.len() - p.types.len(),
{
    if p.types.len() < p.oids.len() {
        let oid = p.oids[p.types.len() as int];
        let reply = QueryReplyView::RangeSubtype(None);
        if p.should_fetch {
            let (next, step) = c.begin(oid);
            lemma_steps_keep_wf(c, oid, reply);
            assert forall|i: int| 0 <= i < p.types.len() implies next.catalog.find(
                TypeRefView::Oid(#[trigger] p.oids[i]),
            ) == Some(p.types[i]) by {
                lemma_steps_keep_fetched(c, oid, reply, TypeRefView::Oid(p.oids[i]));
            }
            if let ResolveStepView::Done(Ok(t)) = step {
                let q = p.with_type(t);
                assert forall|i: int| 0 <= i < q.types.len() implies next.catalog.find(
                    TypeRefView::Oid(#[trigger] q.oids[i]),
                ) == Some(q.types[i]) by {
                    if i < p.types.len() {
                        assert(q.types[i] == p.types[i]);
                    }
                }
                lemma_resolved_types(next, q);
            }
        } else {
            if let Ok(t) = lookup(c.catalog, oid) {
                let q = p.with_type(t);
                assert forall|i: int| 0 <= i < q.types.len() implies c.catalog.find(
                    TypeRefView::Oid(#[trigger] q.oids[i]),
                ) == Some(q.types[i]) by {
                    if i < p.types.len() {
                        assert(q.types[i] == p.types[i]);
                    }
                }
                lemma_resolved_types(c, q);
            }
        }
    }
}

/// The same for a list that goes on after a reply.
pub proof fn lemma_resumed_types(c: ConnectionView, p: PendingTypesView, reply: QueryReplyView)
    requires
        c.wf(),
        p.wf(),
        p.types.len() < p.oids.len(),
        asked_for(c, p),
        resolved_in(p, c),
    ensures
        resume_types(c, p, reply).0.wf(),
        match resume_types(c, p, reply).1 {
            TypesStepView::Done(Ok(types)) => types.len() == p.oids.len() && resolved_in(
                PendingTypesView { types, ..p },
                resume_types(c, p, reply).0,
            ),
            TypesStepView::Query(_, suspended) => suspended.oids == p.oids && suspended.types.len()
                < p.oids.len() && resolved_in(suspended, resume_types(c, p, reply).0) && asked_for(
                resume_types(c, p, reply).0,
                suspended,
            ),
            TypesStepView::Done(Err(_)) => true,
        },
{
    let (next, step) = c.resume(reply);
    lemma_steps_keep_wf(c, 0, reply);
    assert forall|i: int| 0 <= i < p.types.len() implies next.catalog.find(
        TypeRefView::Oid(#[trigger] p.oids[i]),
    ) == Some(p.types[i]) by {
        lemma_steps_keep_fetched(c, 0, reply, TypeRefView::Oid(p.oids[i]));
    }
    if let ResolveStepView::Done(Ok(t)) = step {
        let q = p.with_type(t);
        assert forall|i: int| 0 <= i < q.types.len() implies next.catalog.find(
            TypeRefView::Oid(#[trigger] q.oids[i]),
        ) == Some(q.types[i]) by {
            if i < p.types.len() {
                assert(q.types[i] == p.types[i]);
            }
        }
        lemma_resolved_types(next, q);
    }
}

/// Where nothing may be fetched, and while a session is under way, a list
/// is resolved from the catalog alone: no query is handed out. It resolves
/// exactly where the catalog holds a type for every identifier that is
/// left, and then the connection stays as it is; where nothing may be
/// fetched it stays as it is in any case.
pub proof fn lemma_resolved_from_catalog(c: ConnectionView, p: PendingTypesView)
    requires
        p.wf(),
        !p.should_fetch || c.session is Some,
    ensures
        resolve_types(c, p).1 is Done,
        resolve_types(c, p).1->Done_0 is Ok <==> forall|i: int|
            p.types.len() <= i < p.oids.len() ==> c.catalog.find(
                TypeRefView::Oid(#[trigger] p.oids[i]),
            ) is Some,
        !p.should_fetch || resolve_types(c, p).1->Done_0 is Ok ==> resolve_types(c, p).0 == c,
    decreases p.oids.len() - p.types.len(),
{
    if p.types.len() < p.oids.len() {
        let oid = p.oids[p.types.len() as int];
        match lookup(c.catalog, oid) {
            Ok(t) => {
                lemma_resolved_from_catalog(c, p.with_type(t));
                if resolve_types(c, p).1->Done_0 is Ok {
                    assert forall|i: int| p.types.len() <= i < p.oids.len() implies c.catalog.find(
                        TypeRefView::Oid(#[trigger] p.oids[i]),
                    ) is Some by {
                        if i > p.types.len() {
                            assert(p.with_type(t).oids[i] == p.oids[i]);
                        }
                    }
                }
            },
            Err(_) => {},
        }
    }
}

} // verus!
