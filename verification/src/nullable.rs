//! Which columns of a statement may be NULL: what the catalog says of the
//! attributes that the columns come from, and what the plan adds to it.

use vstd::prelude::*;
use crate::arguments::{ArgumentsView, PgArguments};
use crate::describe::{columns_seq, ColumnView, PgColumn};
use crate::explain::{visit_plan, visited, Explain, Plan};
use crate::text::{decimal, push_decimal, push_str, str_eq};
use crate::type_info::Oid;

verus! {

/// The name under which the statement with the identifier `stmt_id` is
/// prepared on the server: a fixed prefix and the identifier in decimal.
pub open spec fn statement_name_of(stmt_id: u32) -> Seq<char> {
    "sqlx_s_"@ + decimal(stmt_id as nat)
}

/// The request for the plan of the prepared statement with the identifier
/// `stmt_id`, executed with NULL for each of its `params_len` parameters.
pub open spec fn explain_sql(stmt_id: u32, params_len: nat) -> Seq<char> {
    "EXPLAIN (VERBOSE, FORMAT JSON) EXECUTE "@ + statement_name_of(stmt_id) + null_arguments(
        params_len,
    )
}

/// The argument list of `n` NULLs in parentheses; nothing for no parameter.
pub open spec fn null_arguments(n: nat) -> Seq<char> {
    if n == 0 {
        Seq::empty()
    } else {
        "("@ + nulls(n) + ")"@
    }
}

/// `n` NULLs with commas between them.
pub open spec fn nulls(n: nat) -> Seq<char>
    decreases n,
{
    if n == 0 {
        Seq::empty()
    } else if n == 1 {
        "NULL"@
    } else {
        nulls((n - 1) as nat) + ", "@ + "NULL"@
    }
}

/// The name under which the statement with the identifier `stmt_id` is
/// prepared on the server.
pub fn statement_name(stmt_id: Oid) -> (r: String)
    ensures
        r@ == statement_name_of(stmt_id.0),
{
    let mut name = String::new();
    push_str(&mut name, "sqlx_s_");
    push_decimal(&mut name, stmt_id.0 as u128);
    name
}

/// Builds the request for the plan of a prepared statement. NULL is a value
/// of every type, so that the statement can be planned whatever the types
/// of its parameters are.
pub fn explain_query(stmt_id: Oid, params_len: usize) -> (r: String)
    ensures
        r@ == explain_sql(stmt_id.0, params_len as nat),
{
    let mut explain = String::new();
    push_str(&mut explain, "EXPLAIN (VERBOSE, FORMAT JSON) EXECUTE ");
    let name = statement_name(stmt_id);
    push_str(&mut explain, name.as_str());
    let ghost head = explain@;
    assert(head =~= "EXPLAIN (VERBOSE, FORMAT JSON) EXECUTE "@ + statement_name_of(stmt_id.0));
    if params_len > 0 {
        push_str(&mut explain, "(");
        let mut i: usize = 0;
        while i < params_len
            invariant
                i <= params_len,
                explain@ == head + "("@ + nulls(i as nat),
            decreases params_len - i,
        {
            if i > 0 {
                push_str(&mut explain, ", ");
            }
            push_str(&mut explain, "NULL");
            i = i + 1;
        }
        push_str(&mut explain, ")");
    }
    explain
}

/// What the plan alone says of the columns that it gives out: one entry for
/// each output of its top node, with the columns that the plan marks as
/// nullable and nothing known of the others. A plan without outputs says
/// nothing.
pub open spec fn plan_nullables(plan: Plan, nullables: Seq<Option<bool>>) -> bool {
    match plan.output {
        None => nullables.len() == 0,
        Some(outputs) => visited(
            plan,
            outputs@,
            Seq::new(outputs@.len(), |i: int| None::<bool>),
            nullables,
        ),
    }
}

/// Infers from the plan of a statement which of its columns may be NULL.
pub fn nullables_from_plan(explain: &Explain) -> (r: Vec<Option<bool>>)
    ensures
        plan_nullables(explain.plan, r@),
{
    let mut nullables: Vec<Option<bool>> = Vec::new();
    if let Some(outputs) = &explain.plan.output {
        let mut i: usize = 0;
        while i < outputs.len()
            invariant
                i <= outputs.len(),
                nullables@.len() == i,
                forall|j: int| 0 <= j < i ==> #[trigger] nullables@[j] == None::<bool>,
            decreases outputs.len() - i,
        {
            nullables.push(None);
            i = i + 1;
        }
        visit_plan(&explain.plan, outputs.as_slice(), &mut nullables);
    }
    nullables
}

/// What is known of a column once the plan is taken into account: what the
/// catalog says stands, and the plan fills in where the catalog says
/// nothing.
pub open spec fn merged_entry(catalog: Option<bool>, plan: Option<bool>) -> Option<bool> {
    match catalog {
        Some(nullable) => Some(nullable),
        None => plan,
    }
}

/// The entries of the catalog with those of the plan merged in, position
/// by position as far as the plan goes.
pub open spec fn merged(catalog: Seq<Option<bool>>, plan: Seq<Option<bool>>) -> Seq<Option<bool>> {
    Seq::new(
        catalog.len(),
        |i: int|
            if i < plan.len() {
                merged_entry(catalog[i], plan[i])
            } else {
                catalog[i]
            },
    )
}

/// Merges what the plan says into what the catalog says.
pub fn merge_nullables(nullables: &mut Vec<Option<bool>>, patch: &Vec<Option<bool>>)
    ensures
        final(nullables)@ == merged(old(nullables)@, patch@),
{
    let mut i: usize = 0;
    while i < nullables.len() && i < patch.len()
        invariant
            nullables@.len() == old(nullables)@.len(),
            i <= nullables@.len(),
            i <= patch@.len(),
            forall|j: int|
                0 <= j < i ==> #[trigger] nullables@[j] == merged_entry(old(nullables)@[j], patch@[j]),
            forall|j: int| i <= j < nullables@.len() ==> #[trigger] nullables@[j] == old(nullables)@[j],
        decreases nullables.len() - i,
    {
        if nullables[i].is_none() {
            nullables.set(i, patch[i]);
        }
        i = i + 1;
    }
}

/// The row of placeholders for the column at `i`: its position, the
/// relation it comes from, and its attribute number in the relation.
pub open spec fn placeholder_row(i: nat) -> Seq<char> {
    "($"@ + decimal(3 * i + 1) + "::int4, $"@ + decimal(3 * i + 2) + "::int4, $"@ + decimal(
        3 * i + 3,
    ) + "::int2)"@
}

/// The rows of placeholders for `n` columns, with commas between them.
pub open spec fn placeholder_rows(n: nat) -> Seq<char>
    decreases n,
{
    if n == 0 {
        Seq::empty()
    } else if n == 1 {
        placeholder_row(0)
    } else {
        placeholder_rows((n - 1) as nat) + ", "@ + placeholder_row((n - 1) as nat)
    }
}

/// The query that asks the catalog, for `n` columns in order, whether the
/// attribute that a column comes from may be NULL.
pub open spec fn nullable_sql(n: nat) -> Seq<char> {
    "SELECT NOT pg_attribute.attnotnull FROM (VALUES "@ + placeholder_rows(n)
        + ") as col(idx, table_id, col_idx) LEFT JOIN pg_catalog.pg_attribute ON table_id IS NOT NULL AND attrelid = table_id AND attnum = col_idx ORDER BY col.idx"@
}

/// The arguments of that query for the first `n` columns: three for each
/// column.
pub open spec fn nullable_arguments(columns: Seq<ColumnView>, n: nat) -> ArgumentsView
    decreases n,
{
    if n == 0 {
        ArgumentsView {
            types: Seq::empty(),
            buffer: crate::arguments::ArgumentBufferView {
                bytes: Seq::empty(),
                count: 0,
                patches: Seq::empty(),
                type_holes: Seq::empty(),
            },
        }
    } else {
        let column = columns[n - 1];
        nullable_arguments(columns, (n - 1) as nat).with_argument(
            (n - 1) as i32,
        ).with_argument(Oid(column.relation_id)).with_argument(column.relation_attribute_no)
    }
}

fn push_placeholder_row(s: &mut String, i: usize)
    ensures
        final(s)@ == old(s)@ + placeholder_row(i as nat),
{
    let bind: u128 = 3 * (i as u128) + 1;
    push_str(s, "($");
    push_decimal(s, bind);
    push_str(s, "::int4, $");
    push_decimal(s, bind + 1);
    push_str(s, "::int4, $");
    push_decimal(s, bind + 2);
    push_str(s, "::int2)");
}

/// Builds the query that asks the catalog which of the columns come from
/// attributes that cannot be NULL, with its arguments.
pub fn nullable_query(columns: &Vec<PgColumn>) -> (r: (String, PgArguments))
    ensures
        r.0@ == nullable_sql(columns@.len()),
        r.1@ == nullable_arguments(columns_seq(columns@), columns@.len()),
        r.1@.wf(),
{
    let mut query = String::new();
    push_str(&mut query, "SELECT NOT pg_attribute.attnotnull FROM (VALUES ");
    let ghost head = query@;
    let mut args = PgArguments::new();
    let mut i: usize = 0;
    proof {
        assert(args@.types =~= Seq::empty());
        assert(args@.buffer.bytes =~= Seq::empty());
        assert(args@.buffer.patches =~= Seq::empty());
        assert(args@.buffer.type_holes =~= Seq::empty());
    }
    while i < columns.len()
        invariant
            i <= columns.len(),
            head == "SELECT NOT pg_attribute.attnotnull FROM (VALUES "@,
            query@ == head + placeholder_rows(i as nat),
            args@ == nullable_arguments(columns_seq(columns@), i as nat),
            args@.wf(),
        decreases columns.len() - i,
    {
        if i > 0 {
            push_str(&mut query, ", ");
        }
        push_placeholder_row(&mut query, i);
        proof {
            if i > 0 {
                assert(query@ =~= head + (placeholder_rows(i as nat) + ", "@ + placeholder_row(
                    i as nat,
                )));
            }
        }
        let column = &columns[i];
        let ordinal: i32 = #[verifier::truncate]
        (i as i32);
        args.add(ordinal);
        args.add(column.relation_id);
        args.add(column.relation_attribute_no);
        i = i + 1;
    }
    push_str(
        &mut query,
        ") as col(idx, table_id, col_idx) LEFT JOIN pg_catalog.pg_attribute ON table_id IS NOT NULL AND attrelid = table_id AND attnum = col_idx ORDER BY col.idx",
    );
    (query, args)
}

/// Whether a list of session parameters has the one that a server sets
/// which does not answer requests for plans in the form asked for here.
pub open spec fn has_crdb_version(parameters: Seq<(String, String)>) -> bool {
    exists|i: int| 0 <= i < parameters.len() && (#[trigger] parameters[i]).0@ == "crdb_version"@
}

/// Whether the server answers requests for plans: every server does but one
/// that reports the session parameter `crdb_version`.
pub fn explain_supported(parameter_statuses: &Vec<(String, String)>) -> (r: bool)
    ensures
        r == !has_crdb_version(parameter_statuses@),
{
    let mut i: usize = 0;
    while i < parameter_statuses.len()
        invariant
            i <= parameter_statuses.len(),
            forall|j: int|
                0 <= j < i ==> (#[trigger] parameter_statuses@[j]).0@ != "crdb_version"@,
        decreases parameter_statuses.len() - i,
    {
        if str_eq(parameter_statuses[i].0.as_str(), "crdb_version") {
            return false;
        }
        i = i + 1;
    }
    true
}

/// What finding the nullability of the columns of a statement wants next.
pub enum NullableStep {
    /// The query is to be run with the arguments. It gives one row for each
    /// column, in order: whether the attribute may be NULL, or nothing for a
    /// column that comes from no attribute.
    Attributes { sql: String, arguments: PgArguments },
    /// The plan is to be asked for with this request. What the catalog said
    /// is handed back, to be merged with what the plan says.
    Explain { sql: String, nullables: Vec<Option<bool>> },
    /// Nothing more is needed.
    Done(Vec<Option<bool>>),
}

/// The first step for the columns of a statement: without columns there is
/// nothing to find out, and otherwise the catalog is asked.
pub fn get_nullable_for_columns(columns: &Vec<PgColumn>) -> (r: NullableStep)
    ensures
        columns@.len() == 0 ==> (r matches NullableStep::Done(nullables) && nullables@.len() == 0),
        columns@.len() > 0 ==> (r matches NullableStep::Attributes { sql, arguments } && sql@
            == nullable_sql(columns@.len()) && arguments@ == nullable_arguments(
            columns_seq(columns@),
            columns@.len(),
        )),
{
    if columns.len() == 0 {
        return NullableStep::Done(Vec::new());
    }
    let (sql, arguments) = nullable_query(columns);
    NullableStep::Attributes { sql, arguments }
}

/// The step after the catalog has answered: the plan is asked for where
/// the server answers such requests, and otherwise what the catalog said
/// is all there is.
pub fn nullables_from_attributes(
    nullables: Vec<Option<bool>>,
    explain_supported: bool,
    stmt_id: Oid,
    params_len: usize,
) -> (r: NullableStep)
    ensures
        explain_supported ==> (r matches NullableStep::Explain { sql, nullables: kept } && sql@
            == explain_sql(stmt_id.0, params_len as nat) && kept@ == nullables@),
        !explain_supported ==> (r matches NullableStep::Done(done) && done@ == nullables@),
{
    if explain_supported {
        NullableStep::Explain { sql: explain_query(stmt_id, params_len), nullables }
    } else {
        NullableStep::Done(nullables)
    }
}

/// The last step: what the plan says is merged into what the catalog said.
pub fn nullables_from_explain(nullables: Vec<Option<bool>>, explain: &Explain) -> (r: Vec<
    Option<bool>,
>)
    ensures
        exists|patch: Seq<Option<bool>>|
            plan_nullables(explain.plan, patch) && r@ == merged(nullables@, patch),
{
    let mut nullables = nullables;
    let patch = nullables_from_plan(explain);
    merge_nullables(&mut nullables, &patch);
    nullables
}

} // verus!
