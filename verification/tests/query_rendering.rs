use serde_json::Value;
use shard_registry::query::search_body_builder;
use shard_registry::render::render_query_json;

#[test]
fn match_all_renders_exactly() {
    let q = search_body_builder(None, None, None);
    assert_eq!(
        render_query_json(&q),
        "{\"_source\":{\"includes\":[\"*\"]},\"query\":{\"match_all\":{}}}"
    );
}

#[test]
fn cross_fields_renders_exactly() {
    let q = search_body_builder(
        Some("hello".to_string()),
        Some(vec!["name".to_string(), "title".to_string()]),
        Some("_id,name".to_string()),
    );
    assert_eq!(
        render_query_json(&q),
        "{\"_source\":{\"includes\":[\"_id\",\"name\"]},\"query\":{\"query_string\":{\"query\":\"hello\",\"type\":\"cross_fields\",\"fields\":[\"name\",\"title\"],\"minimum_should_match\":\"75%\"}}}"
    );
}

#[test]
fn rendered_body_is_valid_json_with_the_right_shape() {
    let q = search_body_builder(
        Some("laptop bag".to_string()),
        None,
        Some("name, description".to_string()),
    );
    let v: Value = serde_json::from_str(&render_query_json(&q)).expect("valid JSON");
    assert_eq!(v["_source"]["includes"][0], "name");
    assert_eq!(v["_source"]["includes"][1], "description");
    assert_eq!(v["query"]["query_string"]["query"], "laptop bag");
    assert_eq!(v["query"]["query_string"]["type"], "cross_fields");
    assert_eq!(v["query"]["query_string"]["fields"][0], "*");
    assert_eq!(v["query"]["query_string"]["minimum_should_match"], "75%");
}

#[test]
fn special_characters_in_the_term_are_escaped() {
    let q = search_body_builder(
        Some("say \"hi\"\\\n\tplease\u{1}".to_string()),
        None,
        None,
    );
    let rendered = render_query_json(&q);
    let v: Value = serde_json::from_str(&rendered).expect("valid JSON despite escapes");
    assert_eq!(
        v["query"]["query_string"]["query"],
        "say \"hi\"\\\n\tplease\u{1}"
    );
    assert!(rendered.contains("\\\"hi\\\""));
    assert!(rendered.contains("\\n"));
    assert!(rendered.contains("\\t"));
    assert!(rendered.contains("\\u0001"));
}
