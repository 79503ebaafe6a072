use shard_registry::deletion::{
    plan_application_deletion, plan_shard_deletions, shard_deletion_plan,
    summarize_shard_deletions,
};
use shard_registry::registry::Registry;
use shard_registry::ErrorKind;

#[test]
fn every_owned_shard_is_planned_once_in_order() {
    let names = plan_shard_deletions("app-1", "docs", &vec![1, 2, 3]);
    assert_eq!(names, vec!["app-1.docs.1", "app-1.docs.2", "app-1.docs.3"]);
}

#[test]
fn deletion_with_a_failing_shard_still_attempts_all_and_removes_the_record() {
    let mut reg = Registry::new();
    reg.register(true, "app-1", "Foo").unwrap();
    for shard in [1, 2, 3] {
        reg.add_shard(true, "app-1", shard).unwrap();
    }

    // step 1: enumerate and name every owned shard — exactly one delete
    // target per shard
    let plan = plan_application_deletion(&reg, true, "app-1", "docs").unwrap();
    assert_eq!(plan, vec!["app-1.docs.1", "app-1.docs.2", "app-1.docs.3"]);

    // step 2: the transport layer attempted each delete once; shard 2 failed
    let statuses: Vec<u16> = vec![200, 500, 200];
    let report = summarize_shard_deletions(&vec![1, 2, 3], &statuses);
    assert_eq!(report.failed_shards, vec![2]);
    assert!(!report.fully_cleaned);

    // step 3: the record is removed regardless of the per-shard outcomes
    reg.delete_record(true, "app-1").unwrap();
    assert_eq!(
        reg.get(true, "app-1").err(),
        Some(ErrorKind::NotFound("app-1".to_string()))
    );
}

#[test]
fn deleting_a_missing_application_is_not_found_and_plans_nothing() {
    let mut reg = Registry::new();
    reg.register(true, "app-1", "Foo").unwrap();

    let r = plan_application_deletion(&reg, true, "absent-id", "docs");
    assert_eq!(r.err(), Some(ErrorKind::NotFound("absent-id".to_string())));
    // the registry was not touched
    assert_eq!(reg.count(), 1);
    assert_eq!(reg.get(true, "app-1").unwrap().name, "Foo");
}

#[test]
fn an_enumeration_error_passes_through_verbatim() {
    let r = shard_deletion_plan(Err(ErrorKind::Backend(503)), "app-1", "docs");
    assert_eq!(r.err(), Some(ErrorKind::Backend(503)));

    let r = shard_deletion_plan(Ok(vec![5]), "app-1", "docs");
    assert_eq!(r.unwrap(), vec!["app-1.docs.5"]);
}

#[test]
fn a_clean_teardown_reports_fully_cleaned() {
    let report = summarize_shard_deletions(&vec![4, 9], &vec![200, 200]);
    assert!(report.failed_shards.is_empty());
    assert!(report.fully_cleaned);

    let report = summarize_shard_deletions(&vec![], &vec![]);
    assert!(report.failed_shards.is_empty());
    assert!(report.fully_cleaned);
}

#[test]
fn plans_of_different_applications_share_no_target() {
    let plan_a = plan_shard_deletions("app-1", "docs", &vec![1, 2, 11]);
    let plan_b = plan_shard_deletions("app-11", "docs", &vec![1, 2]);
    for name in &plan_a {
        assert!(!plan_b.contains(name));
    }
    // and within one plan, distinct shards name distinct targets
    for i in 0..plan_a.len() {
        for j in 0..plan_a.len() {
            if i != j {
                assert_ne!(plan_a[i], plan_a[j]);
            }
        }
    }
}

#[test]
fn planning_needs_the_backend_up() {
    let reg = Registry::new();
    assert_eq!(
        plan_application_deletion(&reg, false, "app-1", "docs").err(),
        Some(ErrorKind::BackendUnavailable)
    );
}
