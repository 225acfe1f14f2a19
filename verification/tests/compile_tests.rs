use query_filter::compile;
use query_filter::ConfigurationError;
use query_filter::FieldInput;
use query_filter::FilterableType;
use query_filter::MatchKind;

fn field(name: &str, ty: &str, annotation: Option<Vec<&str>>) -> FieldInput {
    FieldInput {
        name: name.to_string(),
        declared_type: ty.to_string(),
        annotation: annotation.map(|tokens| tokens.iter().map(|t| t.to_string()).collect()),
    }
}

#[test]
fn zero_annotated_fields_is_a_configuration_error() {
    let fields = vec![
        field("name", "String", None),
        field("age", "i32", None),
    ];
    let r = compile(fields, Some("things".to_string()), None, false);
    assert_eq!(r, Err(ConfigurationError::NoFilterableFields));
}

#[test]
fn empty_field_list_is_a_configuration_error() {
    let r = compile(Vec::new(), Some("things".to_string()), None, false);
    assert_eq!(r, Err(ConfigurationError::NoFilterableFields));
}

#[test]
fn missing_table_name_is_a_configuration_error() {
    let fields = vec![field("name", "String", Some(vec![]))];
    let r = compile(fields, None, None, false);
    assert_eq!(r, Err(ConfigurationError::MissingTableName));
}

#[test]
fn missing_table_name_takes_precedence_over_missing_fields() {
    let r = compile(Vec::new(), None, None, false);
    assert_eq!(r, Err(ConfigurationError::MissingTableName));
}

#[test]
fn compiled_fields_keep_declaration_order() {
    let fields = vec![
        field("name", "String", Some(vec!["substring"])),
        field("age", "i32", None),
        field("category", "String", Some(vec!["multiple"])),
    ];
    let set = compile(fields, Some("things".to_string()), None, false).unwrap();
    assert_eq!(set.fields.len(), 2);
    assert_eq!(set.fields[0].name, "name");
    assert_eq!(set.fields[0].match_kind, MatchKind::Substring);
    assert!(!set.fields[0].multiple);
    assert_eq!(set.fields[1].name, "category");
    assert_eq!(set.fields[1].match_kind, MatchKind::Exact);
    assert!(set.fields[1].multiple);
}

#[test]
fn default_schema_namespace_is_used_without_an_override() {
    let fields = vec![field("name", "String", Some(vec![]))];
    let set = compile(fields, Some("things".to_string()), None, true).unwrap();
    assert_eq!(set.table.schema, "crate::schema");
    assert_eq!(set.table.table, "things");
    assert!(set.pagination);
}

#[test]
fn schema_override_replaces_the_default_namespace() {
    let fields = vec![field("name", "String", Some(vec![]))];
    let set = compile(
        fields,
        Some("things".to_string()),
        Some("other::schema".to_string()),
        false,
    )
    .unwrap();
    assert_eq!(set.table.schema, "other::schema");
    assert!(!set.pagination);
}

#[test]
fn value_kinds_are_classified_from_declared_type_names() {
    let fields = vec![
        field("a", "String", Some(vec![])),
        field("b", "Option<String>", Some(vec![])),
        field("c", "Uuid", Some(vec![])),
        field("d", "uuid::Uuid", Some(vec![])),
        field("e", "Option<Uuid>", Some(vec![])),
        field("f", "Option<uuid::Uuid>", Some(vec![])),
        field("g", "Money", Some(vec![])),
    ];
    let set = compile(fields, Some("things".to_string()), None, false).unwrap();
    assert_eq!(set.fields[0].value_kind, FilterableType::Text);
    assert_eq!(set.fields[1].value_kind, FilterableType::Text);
    assert_eq!(set.fields[2].value_kind, FilterableType::Identifier);
    assert_eq!(set.fields[3].value_kind, FilterableType::Identifier);
    assert_eq!(set.fields[4].value_kind, FilterableType::Identifier);
    assert_eq!(set.fields[5].value_kind, FilterableType::Identifier);
    assert_eq!(
        set.fields[6].value_kind,
        FilterableType::Opaque("Money".to_string())
    );
}

#[test]
fn classification_preserves_unknown_names_verbatim() {
    let t = FilterableType::from_declared(&"my::own::Type".to_string());
    assert_eq!(t, FilterableType::Opaque("my::own::Type".to_string()));
    let t = FilterableType::from_declared(&"String".to_string());
    assert_eq!(t, FilterableType::Text);
}
