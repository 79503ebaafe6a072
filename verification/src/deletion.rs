//! Best-effort, order-dependent teardown of an application.
//!
//! Deletion is strictly ordered: first the owned shards are enumerated (a
//! missing application stops everything, reported verbatim), then every
//! owned shard's backend collection delete is attempted exactly once, and
//! only then is the registry record removed — whatever the per-shard
//! outcomes were.  A record left pointing at already-deleted shards is a
//! detectable, repairable inconsistency; a deleted record whose shards
//! linger would orphan them with no registry path back.  Per-shard failures
//! are not swallowed: they are folded into an explicit report, so a caller
//! can tell "fully cleaned up" from "partially cleaned up".

use vstd::prelude::*;

use crate::ErrorKind;
use crate::is_success_status;
use crate::namer::{build_shard_name, lemma_shard_name_injective, shard_name, valid_app_id};
use crate::registry::{Registry, contains_id, idx_of};

verus! {

/// The backend collection names to delete for these shards, one per shard,
/// in order.
pub open spec fn planned_names(app_id: Seq<char>, logical: Seq<char>, shards: Seq<u64>) -> Seq<
    Seq<char>,
> {
    Seq::new(shards.len(), |i: int| shard_name(app_id, logical, shards[i] as nat))
}

/// The shard numbers whose delete attempt came back without success, in
/// order.
pub open spec fn failed_shards_of(shards: Seq<u64>, statuses: Seq<u16>) -> Seq<u64>
    decreases shards.len(),
{
    if shards.len() == 0 || statuses.len() == 0 {
        Seq::empty()
    } else {
        failed_shards_of(shards.drop_last(), statuses.drop_last()) + (if is_success_status(
            statuses.last(),
        ) {
            Seq::empty()
        } else {
            seq![shards.last()]
        })
    }
}

/// What deleting an application's shards left behind: which shard deletes
/// failed, and whether the teardown was complete.
pub struct DeletionReport {
    /// The shard numbers whose backend delete did not succeed, in order.
    pub failed_shards: Vec<u64>,
    /// True exactly when every attempted shard delete succeeded.
    pub fully_cleaned: bool,
}

/// Derives the backend collection name of every owned shard, one delete
/// target per shard, in order.
pub fn plan_shard_deletions(app_id: &str, logical_name: &str, shards: &Vec<u64>) -> (names: Vec<
    String,
>)
    ensures
        names.deep_view() == planned_names(app_id@, logical_name@, shards@),
{
    let mut names: Vec<String> = Vec::new();
    let mut i: usize = 0;
    while i < shards.len()
        invariant
            i <= shards@.len(),
            names.deep_view() == planned_names(app_id@, logical_name@, shards@.subrange(
                0,
                i as int,
            )),
        decreases shards@.len() - i,
    {
        let name = build_shard_name(app_id, logical_name, shards[i]);
        let ghost prev = names.deep_view();
        names.push(name);
        i = i + 1;
        proof {
            assert(names.deep_view() =~= prev + seq![name@]);
            assert(planned_names(app_id@, logical_name@, shards@.subrange(0, i as int)) =~= prev
                + seq![shard_name(app_id@, logical_name@, shards@[i - 1] as nat)]);
        }
    }
    proof {
        assert(shards@.subrange(0, shards@.len() as int) =~= shards@);
    }
    names
}

/// The decision after shard enumeration: an enumeration error — `NotFound`
/// included — is reported verbatim and nothing at all is planned; a
/// successful enumeration plans exactly one delete per owned shard, in
/// order.
pub fn shard_deletion_plan(
    enumeration: Result<Vec<u64>, ErrorKind>,
    app_id: &str,
    logical_name: &str,
) -> (r: Result<Vec<String>, ErrorKind>)
    ensures
        (enumeration matches Err(e) ==> r == Result::<Vec<String>, ErrorKind>::Err(e)),
        (enumeration matches Ok(shards) ==> (r matches Ok(names) && names.deep_view()
            == planned_names(app_id@, logical_name@, shards@))),
{
    match enumeration {
        Ok(shards) => Ok(plan_shard_deletions(app_id, logical_name, &shards)),
        Err(e) => Err(e),
    }
}

/// Plans an application's teardown against the registry: enumerates the
/// owned shards and names their delete targets.  A missing application is
/// `NotFound`, with nothing planned and the registry untouched.
pub fn plan_application_deletion(
    registry: &Registry,
    server_up: bool,
    app_id: &str,
    logical_name: &str,
) -> (r: Result<Vec<String>, ErrorKind>)
    ensures
        !server_up ==> r == Result::<Vec<String>, ErrorKind>::Err(ErrorKind::BackendUnavailable),
        server_up && !contains_id(registry@, app_id@) ==> (r matches Err(e) && e
            matches ErrorKind::NotFound(ent) && ent@ == app_id@),
        server_up && contains_id(registry@, app_id@) ==> (r matches Ok(names)
            && names.deep_view() == planned_names(
            app_id@,
            logical_name@,
            registry@[idx_of(registry@, app_id@)].shards,
        )),
{
    let enumeration = registry.list_owned_shards(server_up, app_id);
    shard_deletion_plan(enumeration, app_id, logical_name)
}

/// Two different applications' teardown plans never touch a common backend
/// collection: deleting one tenant's shards cannot reach another's.
pub proof fn lemma_plans_of_different_apps_disjoint(
    app1: Seq<char>,
    app2: Seq<char>,
    logical: Seq<char>,
    shards1: Seq<u64>,
    shards2: Seq<u64>,
)
    requires
        valid_app_id(app1),
        valid_app_id(app2),
        app1 != app2,
    ensures
        forall|i: int, j: int|
            #![trigger planned_names(app1, logical, shards1)[i], planned_names(app2, logical, shards2)[j]]
            0 <= i < shards1.len() && 0 <= j < shards2.len() ==> planned_names(
                app1,
                logical,
                shards1,
            )[i] != planned_names(app2, logical, shards2)[j],
{
    assert forall|i: int, j: int|
        0 <= i < shards1.len() && 0 <= j < shards2.len() implies planned_names(
        app1,
        logical,
        shards1,
    )[i] != planned_names(app2, logical, shards2)[j] by {
        if planned_names(app1, logical, shards1)[i] == planned_names(app2, logical, shards2)[j] {
            lemma_shard_name_injective(
                app1,
                app2,
                logical,
                shards1[i] as nat,
                shards2[j] as nat,
            );
        }
    }
}

/// Within one application's plan, distinct shard numbers name distinct
/// backend collections: no collection is deleted under two entries.
pub proof fn lemma_plan_distinct_within_app(app: Seq<char>, logical: Seq<char>, shards: Seq<u64>)
    requires
        valid_app_id(app),
    ensures
        forall|i: int, j: int|
            #![trigger planned_names(app, logical, shards)[i], planned_names(app, logical, shards)[j]]
            0 <= i < shards.len() && 0 <= j < shards.len() && shards[i] != shards[j]
                ==> planned_names(app, logical, shards)[i] != planned_names(app, logical, shards)[j],
{
    assert forall|i: int, j: int|
        0 <= i < shards.len() && 0 <= j < shards.len() && shards[i] != shards[j]
        implies planned_names(app, logical, shards)[i] != planned_names(app, logical, shards)[j] by {
        if planned_names(app, logical, shards)[i] == planned_names(app, logical, shards)[j] {
            lemma_shard_name_injective(app, app, logical, shards[i] as nat, shards[j] as nat);
        }
    }
}

/// Folds the per-shard delete outcomes into an explicit report: exactly the
/// shards whose status was no success are listed as failed, in order.
pub fn summarize_shard_deletions(shards: &Vec<u64>, statuses: &Vec<u16>) -> (r: DeletionReport)
    requires
        shards@.len() == statuses@.len(),
    ensures
        r.failed_shards@ == failed_shards_of(shards@, statuses@),
        r.fully_cleaned == (failed_shards_of(shards@, statuses@).len() == 0),
{
    let mut failed: Vec<u64> = Vec::new();
    let mut i: usize = 0;
    while i < shards.len()
        invariant
            shards@.len() == statuses@.len(),
            i <= shards@.len(),
            failed@ == failed_shards_of(shards@.subrange(0, i as int), statuses@.subrange(
                0,
                i as int,
            )),
        decreases shards@.len() - i,
    {
        let st = statuses[i];
        if !(200 <= st && st < 300) {
            failed.push(shards[i]);
        }
        i = i + 1;
        proof {
            let sh = shards@.subrange(0, i as int);
            let ss = statuses@.subrange(0, i as int);
            assert(sh.drop_last() =~= shards@.subrange(0, i - 1));
            assert(ss.drop_last() =~= statuses@.subrange(0, i - 1));
            assert(sh.last() == shards@[i - 1]);
            assert(ss.last() == statuses@[i - 1]);
            assert(failed@ =~= failed_shards_of(sh, ss));
        }
    }
    proof {
        assert(shards@.subrange(0, shards@.len() as int) =~= shards@);
        assert(statuses@.subrange(0, statuses@.len() as int) =~= statuses@);
    }
    let fully_cleaned = failed.len() == 0;
    DeletionReport { failed_shards: failed, fully_cleaned }
}

} // verus!
