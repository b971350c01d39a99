use sea_orm::generator::{
    expand_derive_from_query_result, FieldAttr, FieldDecl, GenError, Lit, RecordShape,
};

fn s(x: &str) -> String {
    x.to_string()
}

fn named(fields: Vec<FieldDecl>) -> RecordShape {
    RecordShape::NamedStruct(fields)
}

fn plain_field(name: &str) -> FieldDecl {
    FieldDecl { name: s(name), attrs: Vec::new() }
}

#[test]
fn plain_fields_use_their_own_names() {
    let shape = named(vec![plain_field("id"), plain_field("name")]);
    let specs = expand_derive_from_query_result(&shape).unwrap();
    assert_eq!(specs.len(), 2);
    assert_eq!(specs[0].field_name, "id");
    assert_eq!(specs[0].column_name, "id");
    assert!(!specs[0].has_default);
    assert_eq!(specs[1].field_name, "name");
    assert_eq!(specs[1].column_name, "name");
    assert!(!specs[1].has_default);
}

#[test]
fn raw_identifier_is_stripped_for_lookup() {
    let shape = named(vec![plain_field("r#type")]);
    let specs = expand_derive_from_query_result(&shape).unwrap();
    assert_eq!(specs[0].field_name, "r#type");
    assert_eq!(specs[0].column_name, "type");
}

#[test]
fn column_name_annotation_is_verbatim() {
    let shape = named(vec![FieldDecl {
        name: s("id"),
        attrs: vec![FieldAttr::NameValue(s("column_name"), Lit::Str(s("usr_id")))],
    }]);
    let specs = expand_derive_from_query_result(&shape).unwrap();
    assert_eq!(specs[0].field_name, "id");
    assert_eq!(specs[0].column_name, "usr_id");
}

#[test]
fn repeated_column_name_last_wins() {
    let shape = named(vec![FieldDecl {
        name: s("id"),
        attrs: vec![
            FieldAttr::NameValue(s("column_name"), Lit::Str(s("first"))),
            FieldAttr::NameValue(s("column_name"), Lit::Str(s("second"))),
        ],
    }]);
    let specs = expand_derive_from_query_result(&shape).unwrap();
    assert_eq!(specs[0].column_name, "second");
}

#[test]
fn default_annotation_sets_the_flag() {
    let shape = named(vec![FieldDecl {
        name: s("name"),
        attrs: vec![FieldAttr::Path(s("default"))],
    }]);
    let specs = expand_derive_from_query_result(&shape).unwrap();
    assert!(specs[0].has_default);
    assert_eq!(specs[0].column_name, "name");
}

#[test]
fn unrecognized_annotations_are_ignored() {
    let shape = named(vec![FieldDecl {
        name: s("id"),
        attrs: vec![
            FieldAttr::Path(s("serde")),
            FieldAttr::Path(s("column_name")),
            FieldAttr::NameValue(s("default"), Lit::Bool(true)),
            FieldAttr::NameValue(s("rename"), Lit::Str(s("other"))),
            FieldAttr::Other(s("cfg")),
        ],
    }]);
    let specs = expand_derive_from_query_result(&shape).unwrap();
    assert_eq!(specs[0].column_name, "id");
    assert!(!specs[0].has_default);
}

#[test]
fn invalid_column_name_literal_is_rejected() {
    let shape = named(vec![FieldDecl {
        name: s("id"),
        attrs: vec![FieldAttr::NameValue(s("column_name"), Lit::Int(2))],
    }]);
    let err = expand_derive_from_query_result(&shape).unwrap_err();
    assert!(matches!(err, GenError::InvalidColumnName(Lit::Int(2))));
}

#[test]
fn other_literal_kinds_are_rejected_too() {
    let shape = named(vec![FieldDecl {
        name: s("id"),
        attrs: vec![FieldAttr::NameValue(s("column_name"), Lit::Other(s("4.5")))],
    }]);
    let err = expand_derive_from_query_result(&shape).unwrap_err();
    assert!(matches!(err, GenError::InvalidColumnName(Lit::Other(t)) if t == "4.5"));
}

#[test]
fn first_invalid_field_wins() {
    let shape = named(vec![
        plain_field("ok_field"),
        FieldDecl {
            name: s("bad1"),
            attrs: vec![FieldAttr::NameValue(s("column_name"), Lit::Bool(true))],
        },
        FieldDecl {
            name: s("bad2"),
            attrs: vec![FieldAttr::NameValue(s("column_name"), Lit::Int(1))],
        },
    ]);
    let err = expand_derive_from_query_result(&shape).unwrap_err();
    assert!(matches!(err, GenError::InvalidColumnName(Lit::Bool(true))));
}

#[test]
fn non_struct_shapes_are_rejected() {
    assert!(matches!(
        expand_derive_from_query_result(&RecordShape::Enum),
        Err(GenError::NotAStruct)
    ));
    assert!(matches!(
        expand_derive_from_query_result(&RecordShape::TupleStruct),
        Err(GenError::NotAStruct)
    ));
    assert!(matches!(
        expand_derive_from_query_result(&RecordShape::UnitStruct),
        Err(GenError::NotAStruct)
    ));
    assert!(matches!(
        expand_derive_from_query_result(&RecordShape::Union),
        Err(GenError::NotAStruct)
    ));
}

#[test]
fn empty_struct_yields_empty_plan() {
    let specs = expand_derive_from_query_result(&named(Vec::new())).unwrap();
    assert_eq!(specs.len(), 0);
}
