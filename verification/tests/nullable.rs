use pgtypes::describe::PgColumn;
use pgtypes::explain::{visit_plan, Explain, Plan};
use pgtypes::nullable::{
    explain_query, explain_supported, get_nullable_for_columns, merge_nullables, nullable_query,
    nullables_from_attributes, nullables_from_explain, nullables_from_plan, statement_name,
    NullableStep,
};
use pgtypes::type_info::Oid;
use pgtypes::PgBuiltinType;

fn node(join: Option<&str>, parent: Option<&str>, output: Option<&[&str]>, plans: Option<Vec<Plan>>) -> Plan {
    Plan {
        join_type: join.map(String::from),
        parent_relation: parent.map(String::from),
        output: output.map(|names| names.iter().map(|n| String::from(*n)).collect()),
        plans,
    }
}

fn names(names: &[&str]) -> Vec<String> {
    names.iter().map(|n| String::from(*n)).collect()
}

fn column(ordinal: usize, relation: u32, attribute: i16) -> PgColumn {
    PgColumn {
        ordinal,
        name: format!("c{}", ordinal),
        type_info: PgBuiltinType::Int4.type_info(),
        relation_id: Oid(relation),
        relation_attribute_no: attribute,
    }
}

#[test]
fn the_inner_side_of_a_left_join_is_nullable() {
    let plan = node(
        Some("Left"),
        None,
        Some(&["id", "email"]),
        Some(vec![
            node(None, Some("Outer"), Some(&["id"]), None),
            node(Some("Inner"), Some("Inner"), Some(&["email"]), None),
        ]),
    );
    assert_eq!(nullables_from_plan(&Explain { plan }), vec![None, Some(true)]);
}

#[test]
fn a_plan_without_joins_says_nothing() {
    let plan = node(None, None, Some(&["id", "email"]), None);
    assert_eq!(nullables_from_plan(&Explain { plan }), vec![None, None]);
    let plan = node(
        None,
        None,
        Some(&["id", "email"]),
        Some(vec![node(None, Some("Outer"), Some(&["id", "email"]), None)]),
    );
    assert_eq!(nullables_from_plan(&Explain { plan }), vec![None, None]);
}

#[test]
fn a_plan_without_outputs_says_nothing_of_no_column() {
    let plan = node(Some("Full"), None, None, None);
    assert_eq!(nullables_from_plan(&Explain { plan }), Vec::<Option<bool>>::new());
}

#[test]
fn the_relationship_to_the_parent_counts_without_a_join_type() {
    let plan = node(
        Some("Right"),
        None,
        Some(&["a", "b"]),
        Some(vec![
            node(None, Some("Inner"), Some(&["b"]), None),
            node(None, Some("Outer"), Some(&["a"]), None),
        ]),
    );
    assert_eq!(nullables_from_plan(&Explain { plan }), vec![None, Some(true)]);
    // a join type goes before the relationship to the parent
    let plan = node(
        Some("Left"),
        None,
        Some(&["a", "b"]),
        Some(vec![node(Some("Semi"), Some("Inner"), Some(&["b"]), None)]),
    );
    assert_eq!(nullables_from_plan(&Explain { plan }), vec![None, None]);
}

#[test]
fn all_outputs_of_a_full_join_are_nullable() {
    let plan = node(Some("Full"), None, Some(&["a", "b"]), None);
    assert_eq!(nullables_from_plan(&Explain { plan }), vec![Some(true), Some(true)]);
    let plan = node(Some("Inner"), None, Some(&["a", "b"]), None);
    assert_eq!(nullables_from_plan(&Explain { plan }), vec![Some(true), Some(true)]);
}

#[test]
fn nodes_are_visited_below_left_and_right_joins_only() {
    let below = || vec![node(Some("Inner"), None, Some(&["b"]), None)];
    for (join, expected) in [
        (Some("Left"), Some(true)),
        (Some("Right"), Some(true)),
        (Some("Semi"), None),
        (Some("Anti"), None),
        (None, None),
    ] {
        let plan = node(join, Some("Left"), Some(&["a", "b"]), Some(below()));
        assert_eq!(nullables_from_plan(&Explain { plan }), vec![None, expected]);
    }
    // below a full or an inner join nothing is visited, but its own outputs are marked
    let plan = node(Some("Full"), None, Some(&["a"]), Some(below()));
    let mut nullables = vec![None, None];
    visit_plan(&plan, &names(&["a", "b"]), &mut nullables);
    assert_eq!(nullables, vec![Some(true), None]);
}

#[test]
fn a_left_join_does_not_mark_its_own_outputs() {
    let plan = node(Some("Left"), None, Some(&["a", "b"]), None);
    assert_eq!(nullables_from_plan(&Explain { plan }), vec![None, None]);
    let plan = node(Some("Right"), None, Some(&["a", "b"]), None);
    assert_eq!(nullables_from_plan(&Explain { plan }), vec![None, None]);
}

#[test]
fn joins_are_followed_through_several_levels() {
    let plan = node(
        Some("Left"),
        None,
        Some(&["a", "b", "c"]),
        Some(vec![
            node(None, Some("Outer"), Some(&["a"]), None),
            node(
                Some("Right"),
                Some("Inner"),
                Some(&["b", "c"]),
                Some(vec![
                    node(None, Some("Outer"), Some(&["b"]), None),
                    node(None, Some("Inner"), Some(&["c"]), Some(vec![node(
                        Some("Full"),
                        None,
                        Some(&["a"]),
                        None,
                    )])),
                ]),
            ),
        ]),
    );
    assert_eq!(nullables_from_plan(&Explain { plan }), vec![None, None, Some(true)]);
}

#[test]
fn a_name_marks_the_first_column_that_has_it() {
    let plan = node(Some("Full"), None, Some(&["x", "other"]), None);
    let mut nullables = vec![None, Some(false), None, Some(false)];
    visit_plan(&plan, &names(&["a", "x", "x"]), &mut nullables);
    assert_eq!(nullables, vec![None, Some(true), None, Some(false)]);
}

#[test]
fn what_the_catalog_says_stands() {
    let mut nullables = vec![Some(false), None, Some(true), None, None];
    merge_nullables(&mut nullables, &vec![Some(true), Some(true), None, None]);
    assert_eq!(nullables, vec![Some(false), Some(true), Some(true), None, None]);
    let mut nullables = vec![None];
    merge_nullables(&mut nullables, &vec![Some(true), Some(true)]);
    assert_eq!(nullables, vec![Some(true)]);
    let mut nullables: Vec<Option<bool>> = vec![];
    merge_nullables(&mut nullables, &vec![Some(true)]);
    assert!(nullables.is_empty());
}

#[test]
fn the_plan_fills_in_what_the_catalog_leaves_open() {
    let plan = node(
        Some("Left"),
        None,
        Some(&["id", "email", "n"]),
        Some(vec![node(Some("Inner"), None, Some(&["email", "n"]), None)]),
    );
    let merged = nullables_from_explain(vec![Some(false), None, Some(false)], &Explain { plan });
    assert_eq!(merged, vec![Some(false), Some(true), Some(false)]);
    let plan = node(None, None, Some(&["id", "email", "n"]), None);
    let merged = nullables_from_explain(vec![Some(false), None, Some(true)], &Explain { plan });
    assert_eq!(merged, vec![Some(false), None, Some(true)]);
}

#[test]
fn the_plan_is_asked_for_with_null_for_each_parameter() {
    assert_eq!(explain_query(Oid(5), 0), "EXPLAIN (VERBOSE, FORMAT JSON) EXECUTE sqlx_s_5");
    assert_eq!(explain_query(Oid(5), 1), "EXPLAIN (VERBOSE, FORMAT JSON) EXECUTE sqlx_s_5(NULL)");
    assert_eq!(
        explain_query(Oid(5), 2),
        "EXPLAIN (VERBOSE, FORMAT JSON) EXECUTE sqlx_s_5(NULL, NULL)"
    );
    assert_eq!(
        explain_query(Oid(1234567890), 3),
        "EXPLAIN (VERBOSE, FORMAT JSON) EXECUTE sqlx_s_1234567890(NULL, NULL, NULL)"
    );
    assert_eq!(explain_query(Oid(0), 2), "EXPLAIN (VERBOSE, FORMAT JSON) EXECUTE sqlx_s_0(NULL, NULL)");
    assert_eq!(
        explain_query(Oid(u32::MAX), 0),
        "EXPLAIN (VERBOSE, FORMAT JSON) EXECUTE sqlx_s_4294967295"
    );
}

#[test]
fn a_statement_is_named_after_its_identifier() {
    assert_eq!(statement_name(Oid(5)), "sqlx_s_5");
    assert_eq!(statement_name(Oid(0)), "sqlx_s_0");
    assert_eq!(statement_name(Oid(10)), "sqlx_s_10");
    assert_eq!(statement_name(Oid(4294967295)), "sqlx_s_4294967295");
}

#[test]
fn the_catalog_is_asked_for_each_column() {
    let (sql, arguments) = nullable_query(&vec![column(0, 16384, 1), column(1, 0, 0)]);
    assert_eq!(
        sql,
        "SELECT NOT pg_attribute.attnotnull FROM (VALUES ($1::int4, $2::int4, $3::int2), ($4::int4, $5::int4, $6::int2)) as col(idx, table_id, col_idx) LEFT JOIN pg_catalog.pg_attribute ON table_id IS NOT NULL AND attrelid = table_id AND attnum = col_idx ORDER BY col.idx"
    );
    assert_eq!(arguments.len(), 6);
    let expected: Vec<u8> = vec![
        0, 0, 0, 4, 0, 0, 0, 0, // position 0
        0, 0, 0, 4, 0, 0, 0x40, 0, // relation 16384
        0, 0, 0, 2, 0, 1, // attribute 1
        0, 0, 0, 4, 0, 0, 0, 1, // position 1
        0, 0, 0, 4, 0, 0, 0, 0, // no relation
        0, 0, 0, 2, 0, 0, // no attribute
    ];
    assert_eq!(arguments.buffer().as_slice(), &expected[..]);
}

#[test]
fn placeholders_are_numbered_on() {
    let columns: Vec<PgColumn> = (0..4).map(|i| column(i, 1, 1)).collect();
    let (sql, arguments) = nullable_query(&columns);
    assert!(sql.contains("($10::int4, $11::int4, $12::int2))"));
    assert!(!sql.contains("$13"));
    assert_eq!(arguments.len(), 12);
}

#[test]
fn the_steps_of_finding_nullability() {
    match get_nullable_for_columns(&vec![]) {
        NullableStep::Done(nullables) => assert!(nullables.is_empty()),
        _ => panic!("nothing was to be asked"),
    }
    match get_nullable_for_columns(&vec![column(0, 1, 1)]) {
        NullableStep::Attributes { sql, arguments } => {
            assert!(sql.starts_with("SELECT NOT pg_attribute.attnotnull FROM (VALUES ($1::int4, $2::int4, $3::int2))"));
            assert_eq!(arguments.len(), 3);
        }
        _ => panic!("the catalog was to be asked"),
    }
    match nullables_from_attributes(vec![Some(false), None], true, Oid(7), 2) {
        NullableStep::Explain { sql, nullables } => {
            assert_eq!(sql, "EXPLAIN (VERBOSE, FORMAT JSON) EXECUTE sqlx_s_7(NULL, NULL)");
            assert_eq!(nullables, vec![Some(false), None]);
        }
        _ => panic!("the plan was to be asked for"),
    }
    match nullables_from_attributes(vec![Some(false), None], false, Oid(7), 2) {
        NullableStep::Done(nullables) => assert_eq!(nullables, vec![Some(false), None]),
        _ => panic!("nothing was to be asked"),
    }
}

#[test]
fn one_server_is_not_asked_for_plans() {
    let status = |pairs: &[(&str, &str)]| -> Vec<(String, String)> {
        pairs.iter().map(|(k, v)| (String::from(*k), String::from(*v))).collect()
    };
    assert!(explain_supported(&status(&[])));
    assert!(explain_supported(&status(&[("server_version", "14.2"), ("client_encoding", "UTF8")])));
    assert!(!explain_supported(&status(&[("server_version", "13.0"), ("crdb_version", "v22")])));
    assert!(!explain_supported(&status(&[("crdb_version", "")])));
    assert!(explain_supported(&status(&[("CRDB_VERSION", "v22"), ("crdb_versio", "x")])));
}
