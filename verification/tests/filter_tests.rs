use query_filter::base_query;
use query_filter::compile;
use query_filter::filter;
use query_filter::FieldInput;
use query_filter::FilterParameters;
use query_filter::FilterValue;
use query_filter::MatchKind;
use query_filter::Predicate;

fn field(name: &str, ty: &str, annotation: Option<Vec<&str>>) -> FieldInput {
    FieldInput {
        name: name.to_string(),
        declared_type: ty.to_string(),
        annotation: annotation.map(|tokens| tokens.iter().map(|t| t.to_string()).collect()),
    }
}

fn params(values: Vec<Option<FilterValue>>) -> FilterParameters {
    FilterParameters {
        values,
        page: None,
        per_page: None,
    }
}

fn single(v: &str) -> Option<FilterValue> {
    Some(FilterValue::Single(v.to_string()))
}

fn many(vs: &[&str]) -> Option<FilterValue> {
    Some(FilterValue::Many(vs.iter().map(|v| v.to_string()).collect()))
}

/// The record type of the end-to-end scenarios: a name filtered by
/// case-insensitive substring, and a category filtered by exact membership.
fn thingy() -> query_filter::CompiledFilterSet {
    let fields = vec![
        field("name", "String", Some(vec!["substring", "insensitive"])),
        field("category", "String", Some(vec!["multiple"])),
    ];
    compile(fields, Some("thingies".to_string()), None, false).unwrap()
}

#[test]
fn all_absent_parameters_yield_the_base_query() {
    let set = thingy();
    let q = filter(&set, &params(vec![None, None]));
    assert_eq!(q, base_query(&set));
    assert!(q.predicates.is_empty());
    assert_eq!(q.table, set.table);
}

#[test]
fn exact_single_value_predicate() {
    let fields = vec![field("name", "String", Some(vec![]))];
    let set = compile(fields, Some("things".to_string()), None, false).unwrap();
    let q = filter(&set, &params(vec![single("bolt")]));
    assert_eq!(
        q.predicates,
        vec![Predicate {
            field: "name".to_string(),
            match_kind: MatchKind::Exact,
            operand: FilterValue::Single("bolt".to_string()),
        }]
    );
}

#[test]
fn substring_single_value_predicate() {
    let fields = vec![field("name", "String", Some(vec!["substring"]))];
    let set = compile(fields, Some("things".to_string()), None, false).unwrap();
    let q = filter(&set, &params(vec![single("olt")]));
    assert_eq!(q.predicates.len(), 1);
    assert_eq!(q.predicates[0].match_kind, MatchKind::Substring);
    assert_eq!(
        q.predicates[0].operand,
        FilterValue::Single("olt".to_string())
    );
}

#[test]
fn case_insensitive_single_value_predicate() {
    let fields = vec![field("name", "String", Some(vec!["insensitive"]))];
    let set = compile(fields, Some("things".to_string()), None, false).unwrap();
    let q = filter(&set, &params(vec![single("BOLT")]));
    assert_eq!(q.predicates[0].match_kind, MatchKind::CaseInsensitive);
}

#[test]
fn substring_case_insensitive_single_value_predicate() {
    let fields = vec![field(
        "name",
        "String",
        Some(vec!["substring", "insensitive"]),
    )];
    let set = compile(fields, Some("things".to_string()), None, false).unwrap();
    let q = filter(&set, &params(vec![single("OLT")]));
    assert_eq!(
        q.predicates[0].match_kind,
        MatchKind::SubstringCaseInsensitive
    );
}

#[test]
fn multiple_exact_predicate_keeps_the_candidate_pair() {
    let fields = vec![field("category", "String", Some(vec!["multiple"]))];
    let set = compile(fields, Some("things".to_string()), None, false).unwrap();
    let q = filter(&set, &params(vec![many(&["a", "b"])]));
    assert_eq!(
        q.predicates,
        vec![Predicate {
            field: "category".to_string(),
            match_kind: MatchKind::Exact,
            operand: FilterValue::Many(vec!["a".to_string(), "b".to_string()]),
        }]
    );
}

#[test]
fn multiple_substring_predicate_keeps_kind_and_candidates() {
    let fields = vec![field(
        "category",
        "String",
        Some(vec!["multiple", "substring"]),
    )];
    let set = compile(fields, Some("things".to_string()), None, false).unwrap();
    let q = filter(&set, &params(vec![many(&["a", "b"])]));
    assert_eq!(q.predicates[0].match_kind, MatchKind::Substring);
    assert_eq!(
        q.predicates[0].operand,
        FilterValue::Many(vec!["a".to_string(), "b".to_string()])
    );
}

#[test]
fn like_pattern_encloses_the_value_in_wildcards() {
    assert_eq!(query_filter::like_pattern(&"cou".to_string()), "%cou%");
    assert_eq!(query_filter::like_pattern(&String::new()), "%%");
}

#[test]
fn conjunction_order_follows_field_declaration_order() {
    let fields = vec![
        field("a", "String", Some(vec![])),
        field("b", "String", Some(vec![])),
        field("c", "String", Some(vec![])),
    ];
    let set = compile(fields, Some("things".to_string()), None, false).unwrap();
    let q = filter(&set, &params(vec![single("1"), None, single("3")]));
    let names: Vec<&str> = q.predicates.iter().map(|p| p.field.as_str()).collect();
    assert_eq!(names, vec!["a", "c"]);
}

#[test]
fn repeated_calls_compose_the_same_query() {
    let set = thingy();
    let p = params(vec![single("cou"), None]);
    let q1 = filter(&set, &p);
    let q2 = filter(&set, &p);
    assert_eq!(q1, q2);
}

#[test]
fn scenario_name_substring_insensitive_category_absent() {
    let set = thingy();
    let q = filter(&set, &params(vec![single("cou"), None]));
    assert_eq!(
        q.predicates,
        vec![Predicate {
            field: "name".to_string(),
            match_kind: MatchKind::SubstringCaseInsensitive,
            operand: FilterValue::Single("cou".to_string()),
        }]
    );
}

#[test]
fn scenario_category_membership_name_absent() {
    let set = thingy();
    let q = filter(&set, &params(vec![None, many(&["a", "b"])]));
    assert_eq!(
        q.predicates,
        vec![Predicate {
            field: "category".to_string(),
            match_kind: MatchKind::Exact,
            operand: FilterValue::Many(vec!["a".to_string(), "b".to_string()]),
        }]
    );
}
