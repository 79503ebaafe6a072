use shard_registry::namer::{build_shard_name, is_valid_app_id, u64_to_dec};

#[test]
fn decimal_rendering_is_exact() {
    assert_eq!(u64_to_dec(0), "0");
    assert_eq!(u64_to_dec(7), "7");
    assert_eq!(u64_to_dec(10), "10");
    assert_eq!(u64_to_dec(409), "409");
    assert_eq!(u64_to_dec(u64::MAX), "18446744073709551615");
}

#[test]
fn shard_names_are_exact() {
    assert_eq!(build_shard_name("app1", "docs", 7), "app1.docs.7");
    assert_eq!(build_shard_name("a-b_C9", "items", 0), "a-b_C9.items.0");
}

#[test]
fn shard_naming_is_deterministic() {
    let first = build_shard_name("someapp", "docs", 12);
    let second = build_shard_name("someapp", "docs", 12);
    assert_eq!(first, second);
}

#[test]
fn distinct_inputs_give_distinct_names() {
    let base = build_shard_name("app1", "docs", 1);
    assert_ne!(base, build_shard_name("app1", "docs", 2));
    assert_ne!(base, build_shard_name("app2", "docs", 1));
    assert_ne!(base, build_shard_name("app1", "docs", 11));
    // shard 11 of "app1" and shard 1 of "app11" stay apart
    assert_ne!(
        build_shard_name("app1", "docs", 11),
        build_shard_name("app11", "docs", 1)
    );
}

#[test]
fn app_id_validity_is_checked_character_wise() {
    assert!(is_valid_app_id("abc-123_XYZ"));
    assert!(!is_valid_app_id(""));
    assert!(!is_valid_app_id("a.b"));
    assert!(!is_valid_app_id("white space"));
}
