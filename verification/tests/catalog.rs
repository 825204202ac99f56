use pgtypes::builtin::PgBuiltinType;
use pgtypes::catalog::{GetPgTypeError, LocalPgCatalog};
use pgtypes::type_info::{name_eq, Oid, PgTypeInfo, PgTypeKind, PgTypeRef};

fn by_oid(oid: u32) -> PgTypeRef {
    PgTypeRef::Oid(Oid(oid))
}

fn by_name(name: &str) -> PgTypeRef {
    PgTypeRef::Name(String::from(name))
}

fn simple(oid: u32, name: &str) -> PgTypeInfo {
    PgTypeInfo { oid: Oid(oid), name: String::from(name), kind: PgTypeKind::Simple }
}

fn state(catalog: &LocalPgCatalog, r: &PgTypeRef) -> Result<u32, GetPgTypeError> {
    catalog.resolve_type_info(r).map(|t| t.oid.0)
}

fn unfetched(catalog: &LocalPgCatalog) -> Vec<String> {
    catalog.get_unfetched().iter().map(|r| format!("{:?}", r)).collect()
}

#[test]
fn names_match_up_to_ascii_case() {
    assert!(name_eq("int4", "INT4"));
    assert!(name_eq("MyType", "mytype"));
    assert!(name_eq("", ""));
    assert!(!name_eq("int4", "int8"));
    assert!(!name_eq("int4", "int"));
    assert!(!name_eq("int", "int4"));
    // letters outside ASCII are not folded
    assert!(!name_eq("é", "É"));
    assert!(name_eq("é", "é"));
    // only letters are folded
    assert!(!name_eq("@", "`"));
    assert!(!name_eq("[", "{"));
}

#[test]
fn a_new_catalog_holds_the_built_in_types() {
    let catalog = LocalPgCatalog::new();
    for builtin in PgBuiltinType::all() {
        let found = catalog.resolve_type_info(&PgTypeRef::Oid(builtin.oid())).unwrap();
        assert_eq!(found.oid, builtin.oid());
        assert_eq!(found.name, builtin.name());
        let found = catalog.resolve_type_info(&by_name(builtin.name())).unwrap();
        assert_eq!(found.oid, builtin.oid());
    }
    assert!(!catalog.has_unfetched());
    assert!(catalog.get_unfetched().is_empty());
}

#[test]
fn built_in_types_have_their_fixed_identifiers() {
    let expected: [(PgBuiltinType, u32, &str); 12] = [
        (PgBuiltinType::Bool, 16, "bool"),
        (PgBuiltinType::Bytea, 17, "bytea"),
        (PgBuiltinType::Char, 18, "char"),
        (PgBuiltinType::Int8, 20, "int8"),
        (PgBuiltinType::Int2, 21, "int2"),
        (PgBuiltinType::Int4, 23, "int4"),
        (PgBuiltinType::Json, 114, "json"),
        (PgBuiltinType::Unknown, 705, "unknown"),
        (PgBuiltinType::Record, 2249, "record"),
        (PgBuiltinType::Void, 2278, "void"),
        (PgBuiltinType::Jsonb, 3802, "jsonb"),
        (PgBuiltinType::Int4Array, 1007, "_int4"),
    ];
    for (builtin, oid, name) in expected {
        assert_eq!(builtin.oid(), Oid(oid));
        assert_eq!(builtin.name(), name);
    }
    assert_eq!(PgBuiltinType::Int4Array.element(), Some(PgBuiltinType::Int4));
    assert_eq!(PgBuiltinType::Int4.element(), None);
    assert!(matches!(PgBuiltinType::Int4Array.type_info().kind, PgTypeKind::Array(Oid(23))));
    assert!(matches!(PgBuiltinType::Int4.type_info().kind, PgTypeKind::Simple));
    assert!(matches!(PgBuiltinType::Record.type_info().kind, PgTypeKind::Simple));
    assert!(matches!(PgBuiltinType::Void.type_info().kind, PgTypeKind::Pseudo));
    assert_eq!(PgBuiltinType::all().len(), 28);
}

#[test]
fn lookup_by_name_ignores_case() {
    let catalog = LocalPgCatalog::new();
    assert_eq!(state(&catalog, &by_name("INT4")), Ok(23));
    assert_eq!(state(&catalog, &by_name("Int4")), Ok(23));
    assert_eq!(state(&catalog, &by_name("int44")), Err(GetPgTypeError::Undeclared));
}

#[test]
fn a_reference_goes_from_undeclared_to_unfetched_to_fetched() {
    let mut catalog = LocalPgCatalog::new();
    assert_eq!(state(&catalog, &by_oid(50000)), Err(GetPgTypeError::Undeclared));
    catalog.declare_type(by_oid(50000));
    assert_eq!(state(&catalog, &by_oid(50000)), Err(GetPgTypeError::Unfetched));
    assert!(catalog.has_unfetched());
    assert_eq!(unfetched(&catalog), vec!["Oid(Oid(50000))"]);
    catalog.insert_type(simple(50000, "mood"));
    assert_eq!(state(&catalog, &by_oid(50000)), Ok(50000));
    assert_eq!(state(&catalog, &by_name("MOOD")), Ok(50000));
    assert!(!catalog.has_unfetched());
}

#[test]
fn declaring_twice_waits_once() {
    let mut catalog = LocalPgCatalog::new();
    catalog.declare_type(by_name("mood"));
    catalog.declare_type(by_oid(50000));
    catalog.declare_type(by_name("MOOD"));
    catalog.declare_type(by_oid(50000));
    // known types do not wait
    catalog.declare_type(by_oid(23));
    catalog.declare_type(by_name("int4"));
    assert_eq!(unfetched(&catalog), vec!["Name(\"mood\")", "Oid(Oid(50000))"]);
}

#[test]
fn a_fetched_type_ends_the_wait_of_every_reference_to_it() {
    let mut catalog = LocalPgCatalog::new();
    catalog.declare_type(by_name("Mood"));
    catalog.declare_type(by_oid(50001));
    catalog.declare_type(by_oid(50000));
    catalog.insert_type(simple(50000, "mood"));
    assert_eq!(unfetched(&catalog), vec!["Oid(Oid(50001))"]);
    assert_eq!(state(&catalog, &by_name("Mood")), Ok(50000));
}

#[test]
fn the_first_type_under_an_identifier_stays() {
    let mut catalog = LocalPgCatalog::new();
    catalog.insert_type(simple(50000, "mood"));
    catalog.insert_type(simple(50000, "other"));
    assert_eq!(catalog.resolve_type_info(&by_oid(50000)).unwrap().name, "mood");
    assert_eq!(state(&catalog, &by_name("other")), Err(GetPgTypeError::Undeclared));
    // the built-in types cannot be replaced either
    catalog.insert_type(simple(23, "not_int4"));
    assert_eq!(catalog.resolve_type_info(&by_oid(23)).unwrap().name, "int4");
}

#[test]
fn missing_is_sticky() {
    let mut catalog = LocalPgCatalog::new();
    catalog.declare_type(by_name("nope"));
    catalog.flag_type_as_missing(by_name("nope"));
    assert_eq!(state(&catalog, &by_name("nope")), Err(GetPgTypeError::Missing));
    assert_eq!(state(&catalog, &by_name("NOPE")), Err(GetPgTypeError::Missing));
    assert!(!catalog.has_unfetched());
    // it never waits again
    catalog.declare_type(by_name("nope"));
    catalog.declare_type(by_name("Nope"));
    assert_eq!(state(&catalog, &by_name("nope")), Err(GetPgTypeError::Missing));
    assert!(!catalog.has_unfetched());
    catalog.flag_type_as_missing(by_name("nope"));
    assert_eq!(state(&catalog, &by_name("nope")), Err(GetPgTypeError::Missing));
    // other references are not touched
    assert_eq!(state(&catalog, &by_name("nop")), Err(GetPgTypeError::Undeclared));
    assert_eq!(state(&catalog, &by_oid(50000)), Err(GetPgTypeError::Undeclared));
}

#[test]
fn a_fetched_type_cannot_be_flagged_missing() {
    let mut catalog = LocalPgCatalog::new();
    catalog.flag_type_as_missing(by_oid(23));
    catalog.flag_type_as_missing(by_name("INT4"));
    assert_eq!(state(&catalog, &by_oid(23)), Ok(23));
    assert_eq!(state(&catalog, &by_name("int4")), Ok(23));
}

#[test]
fn a_missing_reference_resolves_once_its_type_arrives() {
    let mut catalog = LocalPgCatalog::new();
    catalog.flag_type_as_missing(by_name("mood"));
    catalog.insert_type(simple(50000, "mood"));
    assert_eq!(state(&catalog, &by_name("mood")), Ok(50000));
}

#[test]
fn inserting_a_type_declares_what_it_refers_to() {
    let mut catalog = LocalPgCatalog::new();
    catalog.insert_type(PgTypeInfo {
        oid: Oid(50010),
        name: String::from("person"),
        kind: PgTypeKind::Composite(vec![
            (String::from("id"), by_oid(23)),
            (String::from("mood"), by_oid(50000)),
            (String::from("home"), by_name("address")),
            (String::from("again"), by_oid(50000)),
        ]),
    });
    assert_eq!(state(&catalog, &by_oid(50010)), Ok(50010));
    assert_eq!(unfetched(&catalog), vec!["Oid(Oid(50000))", "Name(\"address\")"]);
    catalog.insert_type(PgTypeInfo {
        oid: Oid(50011),
        name: String::from("_person"),
        kind: PgTypeKind::Array(Oid(50010)),
    });
    catalog.insert_type(PgTypeInfo {
        oid: Oid(50012),
        name: String::from("age"),
        kind: PgTypeKind::Domain(Oid(50013)),
    });
    catalog.insert_type(PgTypeInfo {
        oid: Oid(50014),
        name: String::from("span"),
        kind: PgTypeKind::Range(Oid(50015)),
    });
    catalog.insert_type(PgTypeInfo {
        oid: Oid(50016),
        name: String::from("mood2"),
        kind: PgTypeKind::Enum(vec![String::from("sad"), String::from("ok")]),
    });
    assert_eq!(
        unfetched(&catalog),
        vec!["Oid(Oid(50000))", "Name(\"address\")", "Oid(Oid(50013))", "Oid(Oid(50015))"]
    );
}

#[test]
fn a_type_that_refers_to_itself_does_not_wait_for_itself() {
    let mut catalog = LocalPgCatalog::new();
    catalog.insert_type(PgTypeInfo {
        oid: Oid(50020),
        name: String::from("node"),
        kind: PgTypeKind::Composite(vec![
            (String::from("next"), by_oid(50020)),
            (String::from("same"), by_name("NODE")),
        ]),
    });
    assert!(!catalog.has_unfetched());
}

#[test]
fn references_tell_what_a_type_refers_to() {
    let info = PgTypeInfo {
        oid: Oid(50010),
        name: String::from("person"),
        kind: PgTypeKind::Composite(vec![
            (String::from("id"), by_oid(23)),
            (String::from("home"), by_name("address")),
        ]),
    };
    let refs: Vec<String> = info.references().iter().map(|r| format!("{:?}", r)).collect();
    assert_eq!(refs, vec!["Oid(Oid(23))", "Name(\"address\")"]);
    assert!(simple(1, "x").references().is_empty());
    assert!(info.matches(&by_oid(50010)));
    assert!(info.matches(&by_name("PERSON")));
    assert!(!info.matches(&by_oid(23)));
    assert!(by_name("a").same(&by_name("A")));
    assert!(!by_name("23").same(&by_oid(23)));
    assert!(by_oid(23).same(&by_oid(23)));
    assert!(!by_oid(23).same(&by_oid(24)));
    let copy = info.clone();
    assert_eq!(format!("{:?}", copy), format!("{:?}", info));
    assert_eq!(info.oid(), Oid(50010));
    assert!(matches!(info.kind(), PgTypeKind::Composite(_)));
}
