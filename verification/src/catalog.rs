//! The local type catalog: which types are known, which are referenced but
//! not fetched yet, and which the server is known not to have.

use vstd::prelude::*;
use crate::builtin::PgBuiltinType;
use crate::type_info::{
    kind_refs, ref_matches, same_ref, Oid, PgTypeInfo, PgTypeRef, TypeInfoView, TypeRefView,
    lemma_names_match_symmetric, lemma_names_match_transitive,
};

verus! {

/// Why a reference does not resolve to a type.
#[derive(PartialEq, Eq, Structural, Clone, Copy, Debug)]
pub enum GetPgTypeError {
    /// A fetch found no such type on the server.
    Missing,
    /// Nothing has referred to the type yet.
    Undeclared,
    /// The type is referred to, and has not been fetched yet.
    Unfetched,
}

/// What the catalog knows of a reference.
pub enum EntryState {
    Undeclared,
    Unfetched,
    Fetched(TypeInfoView),
    Missing,
}

/// The first type from position `from` on that the reference denotes.
pub open spec fn find_from(types: Seq<TypeInfoView>, r: TypeRefView, from: int) -> Option<
    TypeInfoView,
>
    decreases types.len() - from,
{
    if from < 0 || from >= types.len() {
        None
    } else if ref_matches(r, types[from]) {
        Some(types[from])
    } else {
        find_from(types, r, from + 1)
    }
}

/// Whether a list of references holds the key `r`.
pub open spec fn listed(refs: Seq<TypeRefView>, r: TypeRefView) -> bool {
    exists|i: int| 0 <= i < refs.len() && same_ref(#[trigger] refs[i], r)
}

/// A list of types as plain values.
pub open spec fn types_view(types: Seq<PgTypeInfo>) -> Seq<TypeInfoView> {
    Seq::new(types.len(), |i: int| types[i]@)
}

/// A list of references as plain values.
pub open spec fn refs_view(refs: Seq<PgTypeRef>) -> Seq<TypeRefView> {
    Seq::new(refs.len(), |i: int| refs[i]@)
}

/// The references that do not denote the type `t`.
pub open spec fn not_denoting(t: TypeInfoView) -> spec_fn(TypeRefView) -> bool {
    |q: TypeRefView| !ref_matches(q, t)
}

/// The references that are another key than `r`.
pub open spec fn other_than(r: TypeRefView) -> spec_fn(TypeRefView) -> bool {
    |q: TypeRefView| !same_ref(q, r)
}

/// The catalog as plain values: the fetched types in the order in which
/// they were inserted, the references that wait to be fetched in the order
/// in which they were declared, and the references flagged as missing.
pub struct CatalogView {
    pub types: Seq<TypeInfoView>,
    pub unfetched: Seq<TypeRefView>,
    pub missing: Seq<TypeRefView>,
}

impl CatalogView {
    /// The type that a reference resolves to.
    pub open spec fn find(self, r: TypeRefView) -> Option<TypeInfoView> {
        find_from(self.types, r, 0)
    }

    /// What the catalog knows of a reference. A fetched type is found before
    /// a missing flag, and a missing flag before a declaration.
    pub open spec fn state(self, r: TypeRefView) -> EntryState {
        match self.find(r) {
            Some(t) => EntryState::Fetched(t),
            None => if listed(self.missing, r) {
                EntryState::Missing
            } else if listed(self.unfetched, r) {
                EntryState::Unfetched
            } else {
                EntryState::Undeclared
            },
        }
    }

    /// The waiting references are exactly the keys in state `Unfetched`, each
    /// listed once, and the type `unknown` is there.
    pub open spec fn wf(self) -> bool {
        &&& forall|i: int|
            0 <= i < self.unfetched.len() ==> self.find(#[trigger] self.unfetched[i]) is None
                && !listed(self.missing, self.unfetched[i])
        &&& forall|i: int, j: int|
            0 <= i < j < self.unfetched.len() ==> !same_ref(
                #[trigger] self.unfetched[i],
                #[trigger] self.unfetched[j],
            )
        &&& self.find(TypeRefView::Oid(PgBuiltinType::Unknown.spec_oid())) is Some
    }

    /// A reference that nothing is known of starts to wait; any other is left
    /// as it is.
    pub open spec fn declare(self, r: TypeRefView) -> CatalogView {
        if self.state(r) is Undeclared {
            CatalogView { unfetched: self.unfetched.push(r), ..self }
        } else {
            self
        }
    }

    /// `declare` for each reference of a list, in order.
    pub open spec fn declare_all(self, refs: Seq<TypeRefView>) -> CatalogView
        decreases refs.len(),
    {
        if refs.len() == 0 {
            self
        } else {
            self.declare_all(refs.drop_last()).declare(refs.last())
        }
    }

    /// A type whose identifier is new joins the fetched types; the waiting
    /// references that denote it stop waiting, and the references that it
    /// makes are declared. A type whose identifier is known changes nothing.
    pub open spec fn insert(self, t: TypeInfoView) -> CatalogView {
        if self.find(TypeRefView::Oid(t.oid)) is Some {
            self
        } else {
            CatalogView {
                types: self.types.push(t),
                unfetched: self.unfetched.filter(not_denoting(t)),
                missing: self.missing,
            }.declare_all(kind_refs(t.kind))
        }
    }

    /// A reference that does not resolve is flagged and stops waiting.
    pub open spec fn flag_missing(self, r: TypeRefView) -> CatalogView {
        if self.find(r) is Some || listed(self.missing, r) {
            self
        } else {
            CatalogView {
                types: self.types,
                unfetched: self.unfetched.filter(other_than(r)),
                missing: self.missing.push(r),
            }
        }
    }
}

/// Being the same key is symmetric.
pub proof fn lemma_same_ref_symmetric(a: TypeRefView, b: TypeRefView)
    requires
        same_ref(a, b),
    ensures
        same_ref(b, a),
{
    match (a, b) {
        (TypeRefView::Name(x), TypeRefView::Name(y)) => {
            lemma_names_match_symmetric(x, y);
        },
        _ => {},
    }
}

/// Being the same key is transitive.
pub proof fn lemma_same_ref_transitive(a: TypeRefView, b: TypeRefView, c: TypeRefView)
    requires
        same_ref(a, b),
        same_ref(b, c),
    ensures
        same_ref(a, c),
{
    match (a, b, c) {
        (TypeRefView::Name(x), TypeRefView::Name(y), TypeRefView::Name(z)) => {
            lemma_names_match_transitive(x, y, z);
        },
        _ => {},
    }
}

/// The same key denotes the same types.
pub proof fn lemma_same_ref_matches(a: TypeRefView, b: TypeRefView, t: TypeInfoView)
    requires
        same_ref(a, b),
    ensures
        ref_matches(a, t) == ref_matches(b, t),
{
    match (a, b) {
        (TypeRefView::Name(x), TypeRefView::Name(y)) => {
            if ref_matches(a, t) {
                lemma_names_match_symmetric(x, y);
                lemma_names_match_transitive(y, x, t.name);
            }
            if ref_matches(b, t) {
                lemma_names_match_transitive(x, y, t.name);
            }
        },
        _ => {},
    }
}

/// The same key is listed in the same lists.
pub proof fn lemma_same_ref_listed(refs: Seq<TypeRefView>, a: TypeRefView, b: TypeRefView)
    requires
        same_ref(a, b),
    ensures
        listed(refs, a) == listed(refs, b),
{
    if listed(refs, a) {
        let i = choose|i: int| 0 <= i < refs.len() && same_ref(#[trigger] refs[i], a);
        lemma_same_ref_transitive(refs[i], a, b);
    }
    if listed(refs, b) {
        let i = choose|i: int| 0 <= i < refs.len() && same_ref(#[trigger] refs[i], b);
        lemma_same_ref_symmetric(a, b);
        lemma_same_ref_transitive(refs[i], b, a);
    }
}

/// The same key resolves to the same type.
pub proof fn lemma_same_ref_find(types: Seq<TypeInfoView>, a: TypeRefView, b: TypeRefView, from: int)
    requires
        same_ref(a, b),
    ensures
        find_from(types, a, from) == find_from(types, b, from),
    decreases types.len() - from,
{
    if 0 <= from < types.len() {
        lemma_same_ref_matches(a, b, types[from]);
        lemma_same_ref_find(types, a, b, from + 1);
    }
}

/// What `find_from` returns is a type of the list that the reference
/// denotes, and none before it does.
pub proof fn lemma_find_from(types: Seq<TypeInfoView>, r: TypeRefView, from: int)
    requires
        0 <= from,
    ensures
        match find_from(types, r, from) {
            Some(t) => exists|k: int|
                from <= k < types.len() && #[trigger] types[k] == t && ref_matches(r, t) && forall|
                    j: int,
                | from <= j < k ==> !ref_matches(r, #[trigger] types[j]),
            None => forall|j: int| from <= j < types.len() ==> !ref_matches(r, #[trigger] types[j]),
        },
    decreases types.len() - from,
{
    if from < types.len() {
        if ref_matches(r, types[from]) {
            assert(types[from] == types[from]);
        } else {
            lemma_find_from(types, r, from + 1);
            match find_from(types, r, from + 1) {
                Some(t) => {
                    let k = choose|k: int|
                        from + 1 <= k < types.len() && #[trigger] types[k] == t && ref_matches(r, t)
                            && forall|j: int|
                            from + 1 <= j < k ==> !ref_matches(r, #[trigger] types[j]);
                    assert(types[k] == t);
                    assert forall|j: int| from <= j < k implies !ref_matches(
                        r,
                        #[trigger] types[j],
                    ) by {}
                },
                None => {
                    assert forall|j: int| from <= j < types.len() implies !ref_matches(
                        r,
                        #[trigger] types[j],
                    ) by {}
                },
            }
        }
    }
}

/// A type added at the end is found by the references that denote it and
/// that resolved to nothing before; every other lookup is unchanged.
pub proof fn lemma_find_push(types: Seq<TypeInfoView>, t: TypeInfoView, r: TypeRefView, from: int)
    requires
        0 <= from <= types.len(),
    ensures
        find_from(types.push(t), r, from) == match find_from(types, r, from) {
            Some(x) => Some(x),
            None => if ref_matches(r, t) {
                Some(t)
            } else {
                None
            },
        },
    decreases types.len() - from,
{
    let pushed = types.push(t);
    if from < types.len() {
        assert(pushed[from] == types[from]);
        if !ref_matches(r, types[from]) {
            lemma_find_push(types, t, r, from + 1);
        }
    } else {
        assert(pushed[from] == t);
        assert(find_from(pushed, r, from + 1) is None);
    }
}

/// What a filter keeps was there before, and it keeps the order.
pub proof fn lemma_filter_keeps_distinct(refs: Seq<TypeRefView>, pred: spec_fn(TypeRefView) -> bool)
    requires
        forall|i: int, j: int|
            0 <= i < j < refs.len() ==> !same_ref(#[trigger] refs[i], #[trigger] refs[j]),
    ensures
        forall|i: int, j: int|
            0 <= i < j < refs.filter(pred).len() ==> !same_ref(
                #[trigger] refs.filter(pred)[i],
                #[trigger] refs.filter(pred)[j],
            ),
        forall|i: int|
            0 <= i < refs.filter(pred).len() ==> pred(#[trigger] refs.filter(pred)[i]) && exists|
                k: int,
            | 0 <= k < refs.len() && refs[k] == refs.filter(pred)[i],
        forall|k: int|
            0 <= k < refs.len() && pred(refs[k]) ==> exists|i: int|
                0 <= i < refs.filter(pred).len() && refs.filter(pred)[i] == #[trigger] refs[k],
    decreases refs.len(),
{
    reveal(Seq::filter);
    let kept = refs.filter(pred);
    if refs.len() > 0 {
        let front = refs.drop_last();
        let front_kept = front.filter(pred);
        assert forall|i: int, j: int| 0 <= i < j < front.len() implies !same_ref(
            #[trigger] front[i],
            #[trigger] front[j],
        ) by {
            assert(front[i] == refs[i] && front[j] == refs[j]);
        }
        lemma_filter_keeps_distinct(front, pred);
        assert forall|i: int| 0 <= i < kept.len() implies pred(#[trigger] kept[i]) && exists|k: int|
            0 <= k < refs.len() && refs[k] == kept[i] by {
            if i < front_kept.len() {
                assert(kept[i] == front_kept[i]);
                let k = choose|k: int| 0 <= k < front.len() && front[k] == front_kept[i];
                assert(refs[k] == kept[i]);
            } else {
                assert(refs[refs.len() - 1] == kept[i]);
            }
        }
        assert forall|i: int, j: int| 0 <= i < j < kept.len() implies !same_ref(
            #[trigger] kept[i],
            #[trigger] kept[j],
        ) by {
            if j < front_kept.len() {
                assert(kept[i] == front_kept[i] && kept[j] == front_kept[j]);
            } else {
                assert(kept[i] == front_kept[i]);
                let k = choose|k: int| 0 <= k < front.len() && front[k] == front_kept[i];
                assert(refs[k] == kept[i]);
                assert(refs[refs.len() - 1] == kept[j]);
            }
        }
        assert forall|k: int| 0 <= k < refs.len() && pred(refs[k]) implies exists|i: int|
            0 <= i < kept.len() && kept[i] == #[trigger] refs[k] by {
            if k < front.len() {
                assert(front[k] == refs[k]);
                let i = choose|i: int| 0 <= i < front_kept.len() && front_kept[i] == front[k];
                assert(kept[i] == refs[k]);
            } else {
                assert(kept[kept.len() - 1] == refs[k]);
            }
        }
    }
}

/// Declaring a reference keeps the catalog well formed.
pub proof fn lemma_declare_wf(m: CatalogView, r: TypeRefView)
    requires
        m.wf(),
    ensures
        m.declare(r).wf(),
{
    let n = m.declare(r);
    if m.state(r) is Undeclared {
        assert forall|i: int| 0 <= i < n.unfetched.len() implies n.find(#[trigger] n.unfetched[i])
            is None && !listed(n.missing, n.unfetched[i]) by {
            if i < m.unfetched.len() {
                assert(n.unfetched[i] == m.unfetched[i]);
            }
        }
        assert forall|i: int, j: int| 0 <= i < j < n.unfetched.len() implies !same_ref(
            #[trigger] n.unfetched[i],
            #[trigger] n.unfetched[j],
        ) by {
            assert(n.unfetched[i] == m.unfetched[i]);
            if j < m.unfetched.len() {
                assert(n.unfetched[j] == m.unfetched[j]);
            }
        }
    }
}

/// Declaring references changes neither the fetched types nor the flags.
pub proof fn lemma_declare_all(m: CatalogView, refs: Seq<TypeRefView>)
    requires
        m.wf(),
    ensures
        m.declare_all(refs).wf(),
        m.declare_all(refs).types == m.types,
        m.declare_all(refs).missing == m.missing,
    decreases refs.len(),
{
    if refs.len() > 0 {
        lemma_declare_all(m, refs.drop_last());
        lemma_declare_wf(m.declare_all(refs.drop_last()), refs.last());
    }
}

/// Inserting a type keeps the catalog well formed.
pub proof fn lemma_insert_wf(m: CatalogView, t: TypeInfoView)
    requires
        m.wf(),
    ensures
        m.insert(t).wf(),
{
    if m.find(TypeRefView::Oid(t.oid)) is None {
        let mid = CatalogView {
            types: m.types.push(t),
            unfetched: m.unfetched.filter(not_denoting(t)),
            missing: m.missing,
        };
        lemma_filter_keeps_distinct(m.unfetched, not_denoting(t));
        assert forall|i: int| 0 <= i < mid.unfetched.len() implies mid.find(
            #[trigger] mid.unfetched[i],
        ) is None && !listed(mid.missing, mid.unfetched[i]) by {
            let q = mid.unfetched[i];
            let k = choose|k: int| 0 <= k < m.unfetched.len() && m.unfetched[k] == q;
            assert(m.find(m.unfetched[k]) is None);
            lemma_find_push(m.types, t, q, 0);
        }
        lemma_find_push(m.types, t, TypeRefView::Oid(PgBuiltinType::Unknown.spec_oid()), 0);
        assert(mid.wf());
        lemma_declare_all(mid, kind_refs(t.kind));
    }
}

/// Flagging a reference as missing keeps the catalog well formed.
pub proof fn lemma_flag_missing_wf(m: CatalogView, r: TypeRefView)
    requires
        m.wf(),
    ensures
        m.flag_missing(r).wf(),
{
    let n = m.flag_missing(r);
    if !(m.find(r) is Some || listed(m.missing, r)) {
        lemma_filter_keeps_distinct(m.unfetched, other_than(r));
        assert forall|i: int| 0 <= i < n.unfetched.len() implies n.find(#[trigger] n.unfetched[i])
            is None && !listed(n.missing, n.unfetched[i]) by {
            let q = n.unfetched[i];
            let k = choose|k: int| 0 <= k < m.unfetched.len() && m.unfetched[k] == q;
            assert(m.find(m.unfetched[k]) is None);
            assert(!listed(m.missing, m.unfetched[k]));
            if listed(n.missing, q) {
                let j = choose|j: int| 0 <= j < n.missing.len() && same_ref(#[trigger] n.missing[j], q);
                if j < m.missing.len() {
                    assert(m.missing[j] == n.missing[j]);
                } else {
                    lemma_same_ref_symmetric(r, q);
                }
            }
        }
    }
}

/// The local type catalog. References are keys: an identifier, or a name up
/// to ASCII case.
pub struct LocalPgCatalog {
    types: Vec<PgTypeInfo>,
    unfetched: Vec<PgTypeRef>,
    missing: Vec<PgTypeRef>,
}

impl View for LocalPgCatalog {
    type V = CatalogView;

    closed spec fn view(&self) -> CatalogView {
        CatalogView {
            types: types_view(self.types@),
            unfetched: refs_view(self.unfetched@),
            missing: refs_view(self.missing@),
        }
    }
}

fn find_type<'a>(types: &'a Vec<PgTypeInfo>, r: &PgTypeRef) -> (out: Option<&'a PgTypeInfo>)
    ensures
        match find_from(types_view(types@), r@, 0) {
            Some(t) => out matches Some(x) && x@ == t,
            None => out is None,
        },
{
    let mut i: usize = 0;
    while i < types.len()
        invariant
            i <= types.len(),
            find_from(types_view(types@), r@, 0) == find_from(types_view(types@), r@, i as int),
        decreases types.len() - i,
    {
        if types[i].matches(r) {
            return Some(&types[i]);
        }
        i = i + 1;
    }
    None
}

fn is_listed(refs: &Vec<PgTypeRef>, r: &PgTypeRef) -> (b: bool)
    ensures
        b == listed(refs_view(refs@), r@),
{
    let mut i: usize = 0;
    while i < refs.len()
        invariant
            i <= refs.len(),
            forall|j: int| 0 <= j < i ==> !same_ref(#[trigger] refs_view(refs@)[j], r@),
        decreases refs.len() - i,
    {
        if refs[i].same(r) {
            assert(same_ref(refs_view(refs@)[i as int], r@));
            return true;
        }
        i = i + 1;
    }
    false
}

fn clone_refs(refs: &Vec<PgTypeRef>) -> (out: Vec<PgTypeRef>)
    ensures
        refs_view(out@) == refs_view(refs@),
{
    let mut out: Vec<PgTypeRef> = Vec::new();
    let mut i: usize = 0;
    while i < refs.len()
        invariant
            i <= refs.len(),
            out.len() == i,
            forall|j: int| 0 <= j < i ==> out@[j]@ == refs@[j]@,
        decreases refs.len() - i,
    {
        out.push(refs[i].clone());
        i = i + 1;
    }
    out
}

fn without_denoting(refs: &Vec<PgTypeRef>, t: &PgTypeInfo) -> (out: Vec<PgTypeRef>)
    ensures
        refs_view(out@) == refs_view(refs@).filter(not_denoting(t@)),
{
    let mut out: Vec<PgTypeRef> = Vec::new();
    let mut i: usize = 0;
    proof {
        reveal(Seq::filter);
    }
    while i < refs.len()
        invariant
            i <= refs.len(),
            refs_view(out@) == refs_view(refs@).take(i as int).filter(not_denoting(t@)),
        decreases refs.len() - i,
    {
        let keep = !t.matches(&refs[i]);
        if keep {
            out.push(refs[i].clone());
        }
        proof {
            reveal(Seq::filter);
            let all = refs_view(refs@);
            assert(all.take(i + 1).drop_last() =~= all.take(i as int));
        }
        i = i + 1;
    }
    assert(refs_view(refs@).take(i as int) =~= refs_view(refs@));
    out
}

fn without_key(refs: &Vec<PgTypeRef>, r: &PgTypeRef) -> (out: Vec<PgTypeRef>)
    ensures
        refs_view(out@) == refs_view(refs@).filter(other_than(r@)),
{
    let mut out: Vec<PgTypeRef> = Vec::new();
    let mut i: usize = 0;
    proof {
        reveal(Seq::filter);
    }
    while i < refs.len()
        invariant
            i <= refs.len(),
            refs_view(out@) == refs_view(refs@).take(i as int).filter(other_than(r@)),
        decreases refs.len() - i,
    {
        let keep = !refs[i].same(r);
        if keep {
            out.push(refs[i].clone());
        }
        proof {
            reveal(Seq::filter);
            let all = refs_view(refs@);
            assert(all.take(i + 1).drop_last() =~= all.take(i as int));
        }
        i = i + 1;
    }
    assert(refs_view(refs@).take(i as int) =~= refs_view(refs@));
    out
}

/// The built-in types as the catalog holds them, in the order of
/// `PgBuiltinType::spec_all`.
pub open spec fn builtin_types() -> Seq<TypeInfoView> {
    Seq::new(PgBuiltinType::spec_all().len(), |i: int| PgBuiltinType::spec_all()[i].describe())
}

/// Among the built-in types, an identifier finds its own type.
pub proof fn lemma_find_builtin(b: PgBuiltinType)
    ensures
        find_from(builtin_types(), TypeRefView::Oid(b.spec_oid()), 0) == Some(b.describe()),
{
    let r = TypeRefView::Oid(b.spec_oid());
    lemma_find_from(builtin_types(), r, 0);
    b.lemma_all_complete();
    assert(builtin_types()[b.spec_index()] == b.describe());
    match find_from(builtin_types(), r, 0) {
        Some(t) => {
            let k = choose|k: int|
                0 <= k < builtin_types().len() && #[trigger] builtin_types()[k] == t && ref_matches(
                    r,
                    t,
                );
            PgBuiltinType::spec_all()[k].lemma_oid_unique(b);
        },
        None => {
            assert(ref_matches(r, builtin_types()[b.spec_index()]));
        },
    }
}

impl LocalPgCatalog {
    /// A catalog that holds the built-in types and nothing else.
    pub fn new() -> (r: Self)
        ensures
            r@.wf(),
            r@.types == builtin_types(),
            r@.unfetched.len() == 0,
            r@.missing.len() == 0,
            forall|b: PgBuiltinType|
                r@.find(TypeRefView::Oid(#[trigger] b.spec_oid())) == Some(b.describe()),
    {
        let all = PgBuiltinType::all();
        let mut types: Vec<PgTypeInfo> = Vec::new();
        let mut i: usize = 0;
        while i < all.len()
            invariant
                i <= all.len(),
                all@ == PgBuiltinType::spec_all(),
                types.len() == i,
                forall|j: int| 0 <= j < i ==> (#[trigger] types@[j])@ == all@[j].describe(),
            decreases all.len() - i,
        {
            types.push(all[i].type_info());
            i = i + 1;
        }
        let r = LocalPgCatalog { types, unfetched: Vec::new(), missing: Vec::new() };
        proof {
            assert(r@.types =~= builtin_types());
            assert forall|b: PgBuiltinType|
                r@.find(TypeRefView::Oid(#[trigger] b.spec_oid())) == Some(b.describe()) by {
                lemma_find_builtin(b);
            }
        }
        r
    }

    /// Looks a reference up. A fetched type is handed out; for any other
    /// state the error says which.
    pub fn resolve_type_info<'a>(&'a self, r: &PgTypeRef) -> (out: Result<
        &'a PgTypeInfo,
        GetPgTypeError,
    >)
        ensures
            match self@.state(r@) {
                EntryState::Fetched(t) => out matches Ok(x) && x@ == t,
                EntryState::Missing => out matches Err(e) && e == GetPgTypeError::Missing,
                EntryState::Unfetched => out matches Err(e) && e == GetPgTypeError::Unfetched,
                EntryState::Undeclared => out matches Err(e) && e == GetPgTypeError::Undeclared,
            },
    {
        match find_type(&self.types, r) {
            Some(t) => Ok(t),
            None => {
                if is_listed(&self.missing, r) {
                    Err(GetPgTypeError::Missing)
                } else if is_listed(&self.unfetched, r) {
                    Err(GetPgTypeError::Unfetched)
                } else {
                    Err(GetPgTypeError::Undeclared)
                }
            },
        }
    }

    /// The references that wait to be fetched, in the order in which they
    /// were declared.
    pub fn get_unfetched(&self) -> (out: Vec<PgTypeRef>)
        ensures
            refs_view(out@) == self@.unfetched,
    {
        clone_refs(&self.unfetched)
    }

    /// Whether any reference waits to be fetched.
    pub fn has_unfetched(&self) -> (b: bool)
        ensures
            b == (self@.unfetched.len() > 0),
    {
        self.unfetched.len() > 0
    }

    /// Makes a reference that nothing is known of wait to be fetched.
    pub fn declare_type(&mut self, r: PgTypeRef)
        ensures
            final(self)@ == old(self)@.declare(r@),
            old(self)@.wf() ==> final(self)@.wf(),
    {
        proof {
            if old(self)@.wf() {
                lemma_declare_wf(old(self)@, r@);
            }
        }
        let known = match self.resolve_type_info(&r) {
            Err(GetPgTypeError::Undeclared) => false,
            _ => true,
        };
        if !known {
            let ghost before = refs_view(self.unfetched@);
            self.unfetched.push(r);
            assert(refs_view(self.unfetched@) =~= before.push(r@));
        }
    }

    /// Adds a fetched type. The first type inserted under an identifier
    /// stays; the references that the new type makes start to wait where
    /// nothing is known of them.
    pub fn insert_type(&mut self, ty: PgTypeInfo)
        ensures
            final(self)@ == old(self)@.insert(ty@),
            old(self)@.wf() ==> final(self)@.wf(),
    {
        proof {
            if old(self)@.wf() {
                lemma_insert_wf(old(self)@, ty@);
            }
        }
        let key = PgTypeRef::Oid(ty.oid);
        if find_type(&self.types, &key).is_some() {
            return ;
        }
        let refs = ty.references();
        self.unfetched = without_denoting(&self.unfetched, &ty);
        let ghost before = types_view(self.types@);
        self.types.push(ty);
        assert(types_view(self.types@) =~= before.push(ty@));
        let ghost mid = self@;
        let ghost all = kind_refs(ty@.kind);
        let mut i: usize = 0;
        while i < refs.len()
            invariant
                i <= refs.len(),
                refs_view(refs@) == all,
                self@ == mid.declare_all(all.take(i as int)),
            decreases refs.len() - i,
        {
            proof {
                assert(all.take(i + 1).drop_last() =~= all.take(i as int));
            }
            self.declare_type(refs[i].clone());
            i = i + 1;
        }
        assert(all.take(i as int) =~= all);
    }

    /// Records that the server has no type for a reference that does not
    /// resolve.
    pub fn flag_type_as_missing(&mut self, r: PgTypeRef)
        ensures
            final(self)@ == old(self)@.flag_missing(r@),
            old(self)@.wf() ==> final(self)@.wf(),
    {
        proof {
            if old(self)@.wf() {
                lemma_flag_missing_wf(old(self)@, r@);
            }
        }
        if find_type(&self.types, &r).is_some() || is_listed(&self.missing, &r) {
            return ;
        }
        self.unfetched = without_key(&self.unfetched, &r);
        let ghost before = refs_view(self.missing@);
        self.missing.push(r);
        assert(refs_view(self.missing@) =~= before.push(r@));
    }
}

/// A fetched type stays as it is: declaring a reference does not change
/// what a reference resolves to once it resolves.
pub proof fn lemma_declare_keeps_fetched(m: CatalogView, r: TypeRefView, q: TypeRefView)
    requires
        m.find(q) is Some,
    ensures
        m.declare(r).find(q) == m.find(q),
{
}

/// A fetched type stays as it is: inserting a type does not change what a
/// reference resolves to once it resolves.
pub proof fn lemma_insert_keeps_fetched(m: CatalogView, t: TypeInfoView, q: TypeRefView)
    requires
        m.find(q) is Some,
    ensures
        m.insert(t).find(q) == m.find(q),
{
    if m.find(TypeRefView::Oid(t.oid)) is None {
        let mid = CatalogView {
            types: m.types.push(t),
            unfetched: m.unfetched.filter(not_denoting(t)),
            missing: m.missing,
        };
        lemma_find_push(m.types, t, q, 0);
        lemma_declare_all_state(mid, kind_refs(t.kind), q);
    }
}

/// A fetched type stays as it is: flagging a reference as missing does not
/// change what a reference resolves to once it resolves.
pub proof fn lemma_flag_missing_keeps_fetched(m: CatalogView, r: TypeRefView, q: TypeRefView)
    requires
        m.find(q) is Some,
    ensures
        m.flag_missing(r).find(q) == m.find(q),
{
}

/// What declaring a list of references does to the state of a key: a key
/// that nothing was known of waits if the list holds it, and every other
/// state is unchanged.
pub proof fn lemma_declare_all_state(m: CatalogView, refs: Seq<TypeRefView>, q: TypeRefView)
    ensures
        m.declare_all(refs).types == m.types,
        m.declare_all(refs).missing == m.missing,
        m.declare_all(refs).state(q) == if m.state(q) is Undeclared && listed(refs, q) {
            EntryState::Unfetched
        } else {
            m.state(q)
        },
    decreases refs.len(),
{
    if refs.len() > 0 {
        let front = refs.drop_last();
        let before = m.declare_all(front);
        lemma_declare_all_state(m, front, q);
        lemma_declare_state(before, refs.last(), q);
        if listed(front, q) {
            let i = choose|i: int| 0 <= i < front.len() && same_ref(#[trigger] front[i], q);
            assert(refs[i] == front[i]);
        }
        if listed(refs, q) && !listed(front, q) {
            let i = choose|i: int| 0 <= i < refs.len() && same_ref(#[trigger] refs[i], q);
            if i < front.len() {
                assert(front[i] == refs[i]);
            }
            assert(same_ref(refs.last(), q));
        }
        if same_ref(refs.last(), q) {
            assert(same_ref(refs[refs.len() - 1], q));
        }
    }
}

/// What `declare` does to the state of a key: the declared key starts to
/// wait if nothing was known of it, and every other state is unchanged.
pub proof fn lemma_declare_state(m: CatalogView, r: TypeRefView, q: TypeRefView)
    ensures
        m.declare(r).state(q) == if m.state(q) is Undeclared && same_ref(r, q) {
            EntryState::Unfetched
        } else {
            m.state(q)
        },
{
    let n = m.declare(r);
    if same_ref(r, q) {
        lemma_same_ref_find(m.types, r, q, 0);
        lemma_same_ref_listed(m.missing, r, q);
        lemma_same_ref_listed(m.unfetched, r, q);
    }
    if m.state(r) is Undeclared {
        if listed(m.unfetched, q) {
            let i = choose|i: int| 0 <= i < m.unfetched.len() && same_ref(#[trigger] m.unfetched[i], q);
            assert(n.unfetched[i] == m.unfetched[i]);
        }
        if listed(n.unfetched, q) {
            let i = choose|i: int| 0 <= i < n.unfetched.len() && same_ref(#[trigger] n.unfetched[i], q);
            if i < m.unfetched.len() {
                assert(m.unfetched[i] == n.unfetched[i]);
            }
        }
        if same_ref(r, q) {
            assert(same_ref(n.unfetched[n.unfetched.len() - 1], q));
        }
    }
}

/// What filtering the waiting references does to whether a key is listed.
proof fn lemma_filter_listed(refs: Seq<TypeRefView>, pred: spec_fn(TypeRefView) -> bool, q: TypeRefView)
    requires
        forall|i: int, j: int|
            0 <= i < j < refs.len() ==> !same_ref(#[trigger] refs[i], #[trigger] refs[j]),
    ensures
        listed(refs.filter(pred), q) == exists|i: int|
            0 <= i < refs.len() && same_ref(#[trigger] refs[i], q) && pred(refs[i]),
{
    lemma_filter_keeps_distinct(refs, pred);
    let kept = refs.filter(pred);
    if listed(kept, q) {
        let i = choose|i: int| 0 <= i < kept.len() && same_ref(#[trigger] kept[i], q);
        let k = choose|k: int| 0 <= k < refs.len() && refs[k] == kept[i];
        assert(same_ref(refs[k], q) && pred(refs[k]));
    }
    if exists|i: int| 0 <= i < refs.len() && same_ref(#[trigger] refs[i], q) && pred(refs[i]) {
        let k = choose|k: int| 0 <= k < refs.len() && same_ref(#[trigger] refs[k], q) && pred(refs[k]);
        let i = choose|i: int| 0 <= i < kept.len() && kept[i] == refs[k];
        assert(same_ref(kept[i], q));
    }
}

/// What `insert_type` does to the state of every key. A key that resolved
/// keeps its type. Where the identifier of `t` is new: a key that denotes
/// `t` now resolves to it, a missing key stays missing, a waiting key goes
/// on waiting, and a key that nothing was known of waits if `t` refers to
/// it. Where the identifier is known nothing changes.
pub proof fn lemma_insert_state(m: CatalogView, t: TypeInfoView, q: TypeRefView)
    requires
        m.wf(),
    ensures
        m.insert(t).state(q) == if m.find(TypeRefView::Oid(t.oid)) is Some {
            m.state(q)
        } else {
            match m.state(q) {
                EntryState::Fetched(d) => EntryState::Fetched(d),
                EntryState::Missing => if ref_matches(q, t) {
                    EntryState::Fetched(t)
                } else {
                    EntryState::Missing
                },
                EntryState::Unfetched => if ref_matches(q, t) {
                    EntryState::Fetched(t)
                } else {
                    EntryState::Unfetched
                },
                EntryState::Undeclared => if ref_matches(q, t) {
                    EntryState::Fetched(t)
                } else if listed(kind_refs(t.kind), q) {
                    EntryState::Unfetched
                } else {
                    EntryState::Undeclared
                },
            }
        },
{
    if m.find(TypeRefView::Oid(t.oid)) is None {
        let mid = CatalogView {
            types: m.types.push(t),
            unfetched: m.unfetched.filter(not_denoting(t)),
            missing: m.missing,
        };
        lemma_find_push(m.types, t, q, 0);
        lemma_filter_listed(m.unfetched, not_denoting(t), q);
        lemma_declare_all_state(mid, kind_refs(t.kind), q);
        if listed(m.unfetched, q) && !ref_matches(q, t) {
            let i = choose|i: int| 0 <= i < m.unfetched.len() && same_ref(#[trigger] m.unfetched[i], q);
            lemma_same_ref_matches(m.unfetched[i], q, t);
        }
        if listed(mid.unfetched, q) {
            let i = choose|i: int|
                0 <= i < m.unfetched.len() && same_ref(#[trigger] m.unfetched[i], q) && not_denoting(
                    t,
                )(m.unfetched[i]);
            lemma_same_ref_matches(m.unfetched[i], q, t);
        }
    }
}

/// What `flag_type_as_missing` does to the state of every key: the flagged
/// key becomes missing unless it resolves, and every other state is
/// unchanged.
pub proof fn lemma_flag_missing_state(m: CatalogView, r: TypeRefView, q: TypeRefView)
    requires
        m.wf(),
    ensures
        m.flag_missing(r).state(q) == if same_ref(r, q) && m.find(q) is None {
            EntryState::Missing
        } else {
            m.state(q)
        },
{
    let n = m.flag_missing(r);
    if same_ref(r, q) {
        lemma_same_ref_find(m.types, r, q, 0);
        lemma_same_ref_listed(m.missing, r, q);
    }
    if !(m.find(r) is Some || listed(m.missing, r)) {
        lemma_filter_listed(m.unfetched, other_than(r), q);
        if listed(m.missing, q) {
            let i = choose|i: int| 0 <= i < m.missing.len() && same_ref(#[trigger] m.missing[i], q);
            assert(n.missing[i] == m.missing[i]);
        }
        if listed(n.missing, q) {
            let i = choose|i: int| 0 <= i < n.missing.len() && same_ref(#[trigger] n.missing[i], q);
            if i < m.missing.len() {
                assert(m.missing[i] == n.missing[i]);
            }
        }
        if same_ref(r, q) {
            assert(same_ref(n.missing[n.missing.len() - 1], q));
        } else {
            if listed(m.unfetched, q) {
                let i = choose|i: int|
                    0 <= i < m.unfetched.len() && same_ref(#[trigger] m.unfetched[i], q);
                if same_ref(m.unfetched[i], r) {
                    lemma_same_ref_symmetric(m.unfetched[i], r);
                    lemma_same_ref_transitive(r, m.unfetched[i], q);
                }
                assert(other_than(r)(m.unfetched[i]));
            }
        }
    }
}

/// A key that is flagged as missing never waits again, and never becomes
/// unknown: after any operation it is still missing, or it resolves.
pub proof fn lemma_missing_is_sticky(m: CatalogView, r: TypeRefView, t: TypeInfoView, q: TypeRefView)
    requires
        m.wf(),
        m.state(q) is Missing,
    ensures
        m.declare(r).state(q) is Missing,
        m.flag_missing(r).state(q) is Missing,
        m.insert(t).state(q) is Missing || m.insert(t).state(q) is Fetched,
{
    lemma_declare_state(m, r, q);
    lemma_flag_missing_state(m, r, q);
    lemma_insert_state(m, t, q);
}

/// The waiting references are the keys whose state is `Unfetched`.
pub proof fn lemma_unfetched_are_waiting(m: CatalogView, q: TypeRefView)
    requires
        m.wf(),
    ensures
        m.state(q) is Unfetched <==> listed(m.unfetched, q),
{
    if listed(m.unfetched, q) {
        let i = choose|i: int| 0 <= i < m.unfetched.len() && same_ref(#[trigger] m.unfetched[i], q);
        lemma_same_ref_find(m.types, m.unfetched[i], q, 0);
        lemma_same_ref_listed(m.missing, m.unfetched[i], q);
    }
}

} // verus!
