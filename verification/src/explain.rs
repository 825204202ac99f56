//! Nullability of the columns of a statement, inferred from its plan: the
//! columns that come out of the inner side of an outer join may be NULL.

use vstd::prelude::*;
use crate::text::str_eq;

verus! {

/// What the server answers to a request for the plan of a statement.
#[derive(Debug)]
pub struct Explain {
    pub plan: Plan,
}

/// A node of a plan.
#[derive(Debug)]
pub struct Plan {
    /// `Join Type`
    pub join_type: Option<String>,
    /// `Parent Relationship`
    pub parent_relation: Option<String>,
    /// `Output`: the names of the columns that the node gives.
    pub output: Option<Vec<String>>,
    /// `Plans`: the nodes below this one.
    pub plans: Option<Vec<Plan>>,
}

/// How a node is joined: its join type, or without one its relationship to
/// the node above.
pub open spec fn join_class(plan: Plan) -> Option<Seq<char>> {
    match plan.join_type {
        Some(join) => Some(join@),
        None => match plan.parent_relation {
            Some(relation) => Some(relation@),
            None => None,
        },
    }
}

/// Whether the node itself marks the column `name`: it lists the column in
/// its output and is joined as `Full` or `Inner`.
pub open spec fn marks_here(plan: Plan, name: Seq<char>) -> bool {
    &&& plan.output matches Some(output)
    &&& (join_class(plan) == Some("Full"@) || join_class(plan) == Some("Inner"@))
    &&& listed_before(output@, name, output@.len() as int)
}

/// Whether the nodes below are looked at: only below a `Left` or a `Right`
/// join.
pub open spec fn descends(plan: Plan) -> bool {
    &&& plan.plans is Some
    &&& plan.join_type matches Some(join)
    &&& (join@ == "Left"@ || join@ == "Right"@)
}

/// Whether the node, or a node below it that is looked at, marks the
/// column `name`.
pub open spec fn marks(plan: Plan, name: Seq<char>) -> bool
    decreases plan,
{
    marks_here(plan, name) || (descends(plan) && marks_below(
        plan.plans->0@,
        name,
        plan.plans->0@.len() as int,
    ))
}

/// Whether one of the first `n` nodes of a list marks the column `name`.
pub open spec fn marks_below(plans: Seq<Plan>, name: Seq<char>, n: int) -> bool
    decreases plans, n,
{
    if n <= 0 || n > plans.len() {
        false
    } else {
        marks_below(plans, name, n - 1) || marks(plans[n - 1], name)
    }
}

/// Whether one of the first `n` names of a list is `name`.
pub open spec fn listed_before(names: Seq<String>, name: Seq<char>, n: int) -> bool {
    exists|j: int| 0 <= j < n && (#[trigger] names[j])@ == name
}

/// Whether no column before the one at `i` has its name.
pub open spec fn is_first(outputs: Seq<String>, i: int) -> bool {
    forall|j: int| 0 <= j < i ==> (#[trigger] outputs[j])@ != outputs[i]@
}

/// What marking does to the entry at `i`: a column whose name is marked
/// becomes nullable, at the first position that has the name. Every other
/// entry stays.
pub open spec fn marked_entry(
    marked: spec_fn(Seq<char>) -> bool,
    outputs: Seq<String>,
    before: Seq<Option<bool>>,
    i: int,
) -> Option<bool> {
    if i < outputs.len() && is_first(outputs, i) && marked(outputs[i]@) {
        Some(true)
    } else {
        before[i]
    }
}

/// `after` is `before` once the plan was visited.
pub open spec fn visited(
    plan: Plan,
    outputs: Seq<String>,
    before: Seq<Option<bool>>,
    after: Seq<Option<bool>>,
) -> bool {
    &&& after.len() == before.len()
    &&& forall|i: int|
        0 <= i < before.len() ==> #[trigger] after[i] == marked_entry(
            |name: Seq<char>| marks(plan, name),
            outputs,
            before,
            i,
        )
}

fn position(outputs: &[String], name: &String) -> (r: Option<usize>)
    ensures
        match r {
            Some(i) => i < outputs@.len() && outputs@[i as int]@ == name@ && is_first(
                outputs@,
                i as int,
            ),
            None => forall|j: int| 0 <= j < outputs@.len() ==> (#[trigger] outputs@[j])@ != name@,
        },
{
    let mut i: usize = 0;
    while i < outputs.len()
        invariant
            i <= outputs@.len(),
            forall|j: int| 0 <= j < i ==> (#[trigger] outputs@[j])@ != name@,
        decreases outputs.len() - i,
    {
        if outputs[i] == *name {
            return Some(i);
        }
        i = i + 1;
    }
    None
}

fn is_one_of(text: &Option<String>, first: &str, second: &str) -> (r: bool)
    ensures
        r == (text matches Some(t) && (t@ == first@ || t@ == second@)),
{
    match text {
        Some(t) => str_eq(t.as_str(), first) || str_eq(t.as_str(), second),
        None => false,
    }
}

/// Marks the columns of `outputs` that the plan shows to be nullable.
///
/// All outputs of a `Full` or `Inner` node are marked. The nodes below a
/// node are visited only where the node is a `Left` or a `Right` join. A
/// column that is marked may still never be NULL; no column is ever marked
/// as not nullable.
pub fn visit_plan(plan: &Plan, outputs: &[String], nullables: &mut Vec<Option<bool>>)
    requires
        outputs@.len() <= old(nullables)@.len(),
    ensures
        visited(*plan, outputs@, old(nullables)@, final(nullables)@),
    decreases plan,
{
    let ghost before = nullables@;
    if let Some(plan_outputs) = &plan.output {
        let class = match &plan.join_type {
            Some(join) => is_one_of(&plan.join_type, "Full", "Inner"),
            None => is_one_of(&plan.parent_relation, "Full", "Inner"),
        };
        if class {
            let mut k: usize = 0;
            while k < plan_outputs.len()
                invariant
                    k <= plan_outputs.len(),
                    outputs@.len() <= before.len(),
                    nullables@.len() == before.len(),
                    forall|i: int|
                        0 <= i < before.len() ==> #[trigger] nullables@[i] == marked_entry(
                            |name: Seq<char>| listed_before(plan_outputs@, name, k as int),
                            outputs@,
                            before,
                            i,
                        ),
                decreases plan_outputs.len() - k,
            {
                let ghost prev = nullables@;
                if let Some(i) = position(outputs, &plan_outputs[k]) {
                    nullables.set(i, Some(true));
                }
                proof {
                    assert forall|i: int| 0 <= i < before.len() implies #[trigger] nullables@[i]
                        == marked_entry(
                        |name: Seq<char>| listed_before(plan_outputs@, name, k + 1),
                        outputs@,
                        before,
                        i,
                    ) by {
                        assert(prev[i] == marked_entry(
                            |name: Seq<char>| listed_before(plan_outputs@, name, k as int),
                            outputs@,
                            before,
                            i,
                        ));
                        if i < outputs@.len() {
                            let name = outputs@[i]@;
                            if listed_before(plan_outputs@, name, k as int) {
                                let j = choose|j: int|
                                    0 <= j < k && (#[trigger] plan_outputs@[j])@ == name;
                                assert(0 <= j < k + 1 && plan_outputs@[j]@ == name);
                            }
                            if plan_outputs@[k as int]@ == name {
                                assert(listed_before(plan_outputs@, name, k + 1));
                            }
                            if listed_before(plan_outputs@, name, k + 1) && !listed_before(
                                plan_outputs@,
                                name,
                                k as int,
                            ) {
                                let j = choose|j: int|
                                    0 <= j < k + 1 && (#[trigger] plan_outputs@[j])@ == name;
                                assert(j == k);
                            }
                        }
                    }
                }
                k = k + 1;
            }
        }
    }
    let ghost here = nullables@;
    proof {
        assert forall|i: int| 0 <= i < before.len() implies #[trigger] here[i] == marked_entry(
            |name: Seq<char>| marks_here(*plan, name),
            outputs@,
            before,
            i,
        ) by {
            if i < outputs@.len() && plan.output is Some {
                let plan_outputs = plan.output->0;
                let name = outputs@[i]@;
                if marks_here(*plan, name) {
                    let j = choose|j: int|
                        0 <= j < plan_outputs@.len() && (#[trigger] plan_outputs@[j])@ == name;
                    assert(listed_before(plan_outputs@, name, plan_outputs@.len() as int));
                }
                if listed_before(plan_outputs@, name, plan_outputs@.len() as int) {
                    let j = choose|j: int|
                        0 <= j < plan_outputs@.len() && (#[trigger] plan_outputs@[j])@ == name;
                    assert(plan_outputs@[j]@ == name);
                }
            }
        }
    }
    if let Some(plans) = &plan.plans {
        if is_one_of(&plan.join_type, "Left", "Right") {
            let mut done: usize = 0;
            while done < plans.len()
                invariant
                    done <= plans.len(),
                    plan.plans == Some(*plans),
                    outputs@.len() <= before.len(),
                    nullables@.len() == before.len(),
                    forall|i: int|
                        0 <= i < before.len() ==> #[trigger] nullables@[i] == marked_entry(
                            |name: Seq<char>|
                                marks_here(*plan, name) || marks_below(plans@, name, done as int),
                            outputs@,
                            before,
                            i,
                        ),
                decreases plans.len() - done,
            {
                let ghost prev = nullables@;
                proof {
                    vstd::std_specs::vec::axiom_vec_index_decreases(*plans, done as int);
                    assert(plan.plans->0 == *plans);
                    assert(decreases_to!(*plan => plan.plans->0));
                    assert(decreases_to!(*plans => plans[done as int]));
                }
                visit_plan(&plans[done], outputs, nullables);
                proof {
                    assert forall|i: int| 0 <= i < before.len() implies #[trigger] nullables@[i]
                        == marked_entry(
                        |name: Seq<char>|
                            marks_here(*plan, name) || marks_below(plans@, name, done + 1),
                        outputs@,
                        before,
                        i,
                    ) by {
                        assert(prev[i] == marked_entry(
                            |name: Seq<char>|
                                marks_here(*plan, name) || marks_below(plans@, name, done as int),
                            outputs@,
                            before,
                            i,
                        ));
                        assert(nullables@[i] == marked_entry(
                            |name: Seq<char>| marks(plans@[done as int], name),
                            outputs@,
                            prev,
                            i,
                        ));
                    }
                }
                done = done + 1;
            }
        }
    }
}

} // verus!
