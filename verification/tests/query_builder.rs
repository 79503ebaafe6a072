use shard_registry::fields::{split_trim_fields, trim_str};
use shard_registry::query::{
    application_list_query, search_body_builder, QueryClause, MIN_SHOULD_MATCH_PERCENT,
};
use shard_registry::search_params::DocumentSearchQuery;

#[test]
fn no_term_builds_match_all_with_default_fields() {
    let q = search_body_builder(None, None, None);
    assert!(matches!(q.clause, QueryClause::MatchAll));
    assert_eq!(q.return_fields, vec!["*".to_string()]);
}

#[test]
fn no_term_keeps_requested_return_fields() {
    let q = search_body_builder(None, None, Some("_id, name ,indexes".to_string()));
    assert!(matches!(q.clause, QueryClause::MatchAll));
    assert_eq!(q.return_fields, vec!["_id", "name", "indexes"]);
}

#[test]
fn term_builds_cross_field_query_with_fixed_threshold() {
    let q = search_body_builder(
        Some("hello world".to_string()),
        None,
        Some("name".to_string()),
    );
    assert_eq!(q.return_fields, vec!["name"]);
    match q.clause {
        QueryClause::CrossFields {
            term,
            fields,
            min_should_match_percent,
        } => {
            assert_eq!(term, "hello world");
            assert_eq!(fields, vec!["*"]);
            assert_eq!(min_should_match_percent, 75);
            assert_eq!(min_should_match_percent, MIN_SHOULD_MATCH_PERCENT);
        }
        QueryClause::MatchAll => panic!("expected a cross-field query"),
    }
}

#[test]
fn term_searches_the_given_fields() {
    let q = search_body_builder(
        Some("abc".to_string()),
        Some(vec!["name".to_string(), "title".to_string()]),
        None,
    );
    match q.clause {
        QueryClause::CrossFields { fields, .. } => {
            assert_eq!(fields, vec!["name", "title"]);
        }
        QueryClause::MatchAll => panic!("expected a cross-field query"),
    }
}

#[test]
fn application_list_query_returns_registry_fields_only() {
    let q = application_list_query(None);
    assert!(matches!(q.clause, QueryClause::MatchAll));
    assert_eq!(q.return_fields, vec!["_id", "name", "indexes"]);

    let q = application_list_query(Some("Foo".to_string()));
    assert_eq!(q.return_fields, vec!["_id", "name", "indexes"]);
    match q.clause {
        QueryClause::CrossFields {
            term,
            fields,
            min_should_match_percent,
        } => {
            assert_eq!(term, "Foo");
            assert_eq!(fields, vec!["*"]);
            assert_eq!(min_should_match_percent, 75);
        }
        QueryClause::MatchAll => panic!("expected a cross-field query"),
    }
}

#[test]
fn field_lists_are_split_on_commas_and_trimmed() {
    assert_eq!(split_trim_fields(" a , b ,c"), vec!["a", "b", "c"]);
    assert_eq!(split_trim_fields("one"), vec!["one"]);
    assert_eq!(split_trim_fields(""), vec![""]);
    assert_eq!(split_trim_fields("a,,b"), vec!["a", "", "b"]);
    assert_eq!(split_trim_fields("\t x \n"), vec!["x"]);
}

#[test]
fn trimming_strips_whitespace_only_at_the_ends() {
    assert_eq!(trim_str("  a b \t"), "a b");
    assert_eq!(trim_str("   "), "");
    assert_eq!(trim_str(""), "");
    assert_eq!(trim_str("xy"), "xy");
}

#[test]
fn trimming_matches_unicode_whitespace() {
    // form feed, vertical tab, no-break space and ideographic space are all
    // whitespace, exactly as str::trim treats them
    assert_eq!(trim_str("\u{0C}a\u{0B}b\u{A0}"), "a\u{0B}b");
    assert_eq!(trim_str("\u{3000} x \u{2028}"), "x");
    assert_eq!(split_trim_fields("a\u{0C}, b"), vec!["a", "b"]);
    assert_eq!(trim_str(" a\u{0C}, b "), "a\u{0C}, b".trim());
}

#[test]
fn search_request_struct_builds_the_same_body() {
    let req = DocumentSearchQuery {
        search_term: Some("laptop".to_string()),
        search_in: Some("name, description".to_string()),
        return_fields: Some("_id".to_string()),
        from: Some(0),
        count: Some(20),
        wildcards: None,
        min_before_expansion: None,
    };
    let q = req.build_body();
    assert_eq!(q.return_fields, vec!["_id"]);
    match q.clause {
        QueryClause::CrossFields {
            term,
            fields,
            min_should_match_percent,
        } => {
            assert_eq!(term, "laptop");
            assert_eq!(fields, vec!["name", "description"]);
            assert_eq!(min_should_match_percent, 75);
        }
        QueryClause::MatchAll => panic!("expected a cross-field query"),
    }
}
