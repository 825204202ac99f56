use pgtypes::connection::{PgConnection, QueryReply};
use pgtypes::describe::{
    build_columns, ColumnNames, DescribeStep, Field, ParameterDescription, PgColumn,
    RowDescription, TypesStep,
};
use pgtypes::type_info::{Oid, PgTypeKind, PgTypeRef};
use pgtypes::type_row::PgTypeRow;
use pgtypes::PgBuiltinType;

fn field(name: &str, oid: u32, relation: u32, attribute: i16) -> Field {
    Field {
        name: String::from(name),
        relation_id: Oid(relation),
        relation_attribute_no: attribute,
        data_type_id: Oid(oid),
    }
}

fn done(step: DescribeStep) -> (Vec<PgColumn>, ColumnNames) {
    match step {
        DescribeStep::Done(Ok(described)) => described,
        DescribeStep::Done(Err(e)) => panic!("failed with {:?}", e),
        DescribeStep::Query(query, _) => panic!("asked {:?}", query),
    }
}

fn simple_row(oid: u32, name: &str) -> PgTypeRow {
    PgTypeRow {
        oid: Oid(oid),
        name: String::from(name),
        typ_type: b'b' as i8,
        category: b'U' as i8,
        relation_id: Oid(0),
        element: Oid(0),
        base_type: Oid(0),
    }
}

#[test]
fn a_statement_without_rows_has_no_columns() {
    let mut conn = PgConnection::new();
    for should_fetch in [true, false] {
        let (columns, names) = done(conn.handle_row_description(None, should_fetch));
        assert!(columns.is_empty());
        assert_eq!(names.get("id"), None);
    }
    let (columns, _) =
        done(conn.handle_row_description(Some(RowDescription { fields: vec![] }), true));
    assert!(columns.is_empty());
}

#[test]
fn columns_stand_where_their_fields_stand() {
    let mut conn = PgConnection::new();
    let desc = RowDescription {
        fields: vec![field("id", 23, 16384, 1), field("name", 25, 16384, 2), field("?column?", 16, 0, 0)],
    };
    let (columns, names) = done(conn.handle_row_description(Some(desc), false));
    assert_eq!(columns.len(), 3);
    assert_eq!(columns[0].ordinal, 0);
    assert_eq!(columns[0].name, "id");
    assert_eq!(columns[0].type_info.oid, Oid(23));
    assert_eq!(columns[0].type_info.name, "int4");
    assert_eq!(columns[0].relation_id, Oid(16384));
    assert_eq!(columns[0].relation_attribute_no, 1);
    assert_eq!(columns[1].ordinal, 1);
    assert_eq!(columns[1].name, "name");
    assert_eq!(columns[1].type_info.oid, Oid(25));
    assert_eq!(columns[1].relation_attribute_no, 2);
    assert_eq!(columns[2].ordinal, 2);
    assert_eq!(columns[2].name, "?column?");
    assert_eq!(columns[2].type_info.oid, Oid(16));
    assert_eq!(columns[2].relation_id, Oid(0));
    assert_eq!(columns[2].relation_attribute_no, 0);
    assert_eq!(names.get("id"), Some(0));
    assert_eq!(names.get("name"), Some(1));
    assert_eq!(names.get("?column?"), Some(2));
    assert_eq!(names.get("ID"), None);
    assert_eq!(names.get(""), None);
}

#[test]
fn of_two_columns_with_a_name_the_later_is_indexed() {
    let mut conn = PgConnection::new();
    let desc = RowDescription {
        fields: vec![field("a", 23, 0, 0), field("b", 23, 0, 0), field("a", 16, 0, 0)],
    };
    let (columns, names) = done(conn.handle_row_description(Some(desc), true));
    assert_eq!(columns.len(), 3);
    assert_eq!(names.get("a"), Some(2));
    assert_eq!(names.get("b"), Some(1));
}

#[test]
fn without_fetching_an_unknown_type_is_an_error() {
    let mut conn = PgConnection::new();
    let desc = RowDescription {
        fields: vec![field("a", 23, 0, 0), field("b", 50000, 0, 0), field("c", 50001, 0, 0)],
    };
    match conn.handle_row_description(Some(desc), false) {
        DescribeStep::Done(Err(e)) => {
            assert_eq!(format!("{:?}", e), "TypeNotFound { typ: Oid(Oid(50000)) }")
        }
        _ => panic!("an error was expected"),
    }
    assert!(!conn.is_fetching_types());
    assert!(!conn.catalog().has_unfetched());
}

#[test]
fn with_fetching_an_unknown_type_is_asked_for() {
    let mut conn = PgConnection::new();
    let desc = RowDescription {
        fields: vec![field("a", 23, 0, 0), field("b", 50000, 7, 3), field("c", 50001, 0, 0)],
    };
    let describer = match conn.handle_row_description(Some(desc), true) {
        DescribeStep::Query(query, describer) => {
            assert_eq!(format!("{:?}", query), "TypeByRef(Oid(Oid(50000)))");
            describer
        }
        _ => panic!("a query was expected"),
    };
    let describer =
        match conn.resume_row_description(describer, QueryReply::TypeRow(Some(simple_row(50000, "mood")))) {
            DescribeStep::Query(query, describer) => {
                assert_eq!(format!("{:?}", query), "TypeByRef(Oid(Oid(50001)))");
                describer
            }
            _ => panic!("a query was expected"),
        };
    let (columns, names) = done(
        conn.resume_row_description(describer, QueryReply::TypeRow(Some(simple_row(50001, "hue")))),
    );
    assert_eq!(columns.len(), 3);
    assert_eq!(columns[1].ordinal, 1);
    assert_eq!(columns[1].name, "b");
    assert_eq!(columns[1].type_info.name, "mood");
    assert_eq!(columns[1].relation_id, Oid(7));
    assert_eq!(columns[1].relation_attribute_no, 3);
    assert_eq!(columns[2].type_info.name, "hue");
    assert_eq!(names.get("c"), Some(2));
    assert!(!conn.is_fetching_types());
}

#[test]
fn a_type_that_the_server_lacks_fails_the_description() {
    let mut conn = PgConnection::new();
    let desc = RowDescription { fields: vec![field("b", 50000, 0, 0)] };
    let describer = match conn.handle_row_description(Some(desc), true) {
        DescribeStep::Query(_, describer) => describer,
        _ => panic!("a query was expected"),
    };
    match conn.resume_row_description(describer, QueryReply::TypeRow(None)) {
        DescribeStep::Done(Err(e)) => {
            assert_eq!(format!("{:?}", e), "TypeNotFound { typ: Oid(Oid(50000)) }")
        }
        _ => panic!("an error was expected"),
    }
    assert!(!conn.is_fetching_types());
}

#[test]
fn a_description_during_a_session_is_answered_from_the_catalog() {
    let mut conn = PgConnection::new();
    let _ = conn.maybe_fetch_type_info_by_oid(Oid(50000));
    assert!(conn.is_fetching_types());
    let desc = RowDescription { fields: vec![field("oid", 26, 0, 0), field("typname", 25, 0, 0)] };
    let (columns, _) = done(conn.handle_row_description(Some(desc), true));
    assert_eq!(columns.len(), 2);
    assert_eq!(columns[0].type_info.oid, Oid(26));
    assert!(conn.is_fetching_types());
}

#[test]
fn parameters_keep_their_order() {
    let mut conn = PgConnection::new();
    let desc = ParameterDescription { types: vec![Oid(23), Oid(16), Oid(23), Oid(1007)] };
    match conn.handle_parameter_description(desc) {
        TypesStep::Done(Ok(types)) => {
            let oids: Vec<u32> = types.iter().map(|t| t.oid.0).collect();
            assert_eq!(oids, vec![23, 16, 23, 1007]);
            assert!(matches!(types[3].kind, PgTypeKind::Array(Oid(23))));
        }
        _ => panic!("types were expected"),
    }
    match conn.handle_parameter_description(ParameterDescription { types: vec![] }) {
        TypesStep::Done(Ok(types)) => assert!(types.is_empty()),
        _ => panic!("types were expected"),
    }
}

#[test]
fn parameters_of_unknown_types_are_fetched() {
    let mut conn = PgConnection::new();
    let desc = ParameterDescription { types: vec![Oid(50000), Oid(23), Oid(50000)] };
    let pending = match conn.handle_parameter_description(desc) {
        TypesStep::Query(query, pending) => {
            assert_eq!(format!("{:?}", query), "TypeByRef(Oid(Oid(50000)))");
            pending
        }
        _ => panic!("a query was expected"),
    };
    match conn
        .resume_parameter_description(pending, QueryReply::TypeRow(Some(simple_row(50000, "mood"))))
    {
        TypesStep::Done(Ok(types)) => {
            let names: Vec<&str> = types.iter().map(|t| t.name.as_str()).collect();
            assert_eq!(names, vec!["mood", "int4", "mood"]);
        }
        _ => panic!("types were expected"),
    }
    assert!(conn.catalog().resolve_type_info(&PgTypeRef::Oid(Oid(50000))).is_ok());
}

#[test]
fn columns_are_built_from_fields_and_types() {
    let fields = vec![field("x", 23, 1, 2), field("y", 16, 3, 4)];
    let types = vec![PgBuiltinType::Int4.type_info(), PgBuiltinType::Bool.type_info()];
    let (columns, names) = build_columns(fields, types);
    assert_eq!(
        format!("{:?}", columns[1]),
        "PgColumn { ordinal: 1, name: \"y\", type_info: PgTypeInfo { oid: Oid(16), name: \"bool\", kind: Simple }, relation_id: Oid(3), relation_attribute_no: 4 }"
    );
    assert_eq!(names.get("x"), Some(0));
    assert_eq!(names.get("y"), Some(1));
}
