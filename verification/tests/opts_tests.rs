use query_filter::FilterOpts;
use query_filter::MatchKind;

fn tokens(ts: &[&str]) -> Vec<String> {
    ts.iter().map(|t| t.to_string()).collect()
}

#[test]
fn no_tokens_yield_the_defaults() {
    let o = FilterOpts::from_tokens(&tokens(&[]));
    assert_eq!(o.kind, MatchKind::Exact);
    assert!(!o.multiple);
    assert_eq!(o, FilterOpts::default());
}

#[test]
fn substring_token_alone() {
    let o = FilterOpts::from_tokens(&tokens(&["substring"]));
    assert_eq!(o.kind, MatchKind::Substring);
    assert!(!o.multiple);
}

#[test]
fn insensitive_token_alone() {
    let o = FilterOpts::from_tokens(&tokens(&["insensitive"]));
    assert_eq!(o.kind, MatchKind::CaseInsensitive);
    assert!(!o.multiple);
}

#[test]
fn both_comparison_tokens_combine() {
    let o = FilterOpts::from_tokens(&tokens(&["substring", "insensitive"]));
    assert_eq!(o.kind, MatchKind::SubstringCaseInsensitive);
}

#[test]
fn token_order_does_not_matter() {
    let a = FilterOpts::from_tokens(&tokens(&["insensitive", "multiple", "substring"]));
    let b = FilterOpts::from_tokens(&tokens(&["multiple", "substring", "insensitive"]));
    assert_eq!(a, b);
    assert_eq!(a.kind, MatchKind::SubstringCaseInsensitive);
    assert!(a.multiple);
}

#[test]
fn multiple_is_independent_of_the_comparison_kind() {
    let o = FilterOpts::from_tokens(&tokens(&["multiple"]));
    assert_eq!(o.kind, MatchKind::Exact);
    assert!(o.multiple);
    let o = FilterOpts::from_tokens(&tokens(&["multiple", "substring"]));
    assert_eq!(o.kind, MatchKind::Substring);
    assert!(o.multiple);
}

#[test]
fn unrecognised_tokens_are_ignored() {
    let o = FilterOpts::from_tokens(&tokens(&["something_else", "substring"]));
    assert_eq!(o.kind, MatchKind::Substring);
    assert!(!o.multiple);
}
