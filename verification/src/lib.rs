//! Application registry and sharded-index naming layer for a multi-tenant
//! document-search façade.
//!
//! Independent applications each own a private, sharded namespace of indexes
//! inside one shared search cluster.  This crate holds the verified core of
//! that façade: the registry of applications and the shards they own, the
//! deterministic shard-naming scheme, the builder for backend query bodies,
//! and the ordered, best-effort teardown of an application.  All network I/O
//! against the search cluster stays outside; the functions here compute over
//! plain values and state exactly what they return.

use vstd::prelude::*;

pub mod deletion;
pub mod fields;
pub mod namer;
pub mod query;
pub mod registry;
pub mod render;
pub mod route_params;
pub mod search_params;

verus! {

/// The failure kinds this layer reports to its callers.
///
/// `NotFound` names the entity — the application or document id — that was
/// looked up and missing; `Backend` carries the backend's own HTTP-like
/// status code when the failure fits no more precise kind.
#[derive(Clone, Debug, PartialEq, Eq)]
pub enum ErrorKind {
    /// The health probe of the search backend failed; nothing was attempted.
    BackendUnavailable,
    /// The addressed application or document has no record; holds the id
    /// that was requested.
    NotFound(String),
    /// The backend reported that the inserted id already exists.
    Conflict,
    /// An unclassified backend failure, with the backend's status code.
    Backend(u16),
}

impl ErrorKind {
    /// A human-readable message for this error, for the transport layer to
    /// put into a response body; a missing record's message names the id
    /// that was requested.
    pub fn message(&self) -> (r: String)
        ensures
            r@ == match *self {
                ErrorKind::BackendUnavailable => "search backend is down"@,
                ErrorKind::NotFound(ent) => "record not found: "@ + ent@,
                ErrorKind::Conflict => "id already exists"@,
                ErrorKind::Backend(_) => "unknown backend error"@,
            },
    {
        match self {
            ErrorKind::BackendUnavailable => "search backend is down".to_owned(),
            ErrorKind::NotFound(ent) => {
                let mut m = "record not found: ".to_owned();
                m.append(ent.as_str());
                m
            },
            ErrorKind::Conflict => "id already exists".to_owned(),
            ErrorKind::Backend(_) => "unknown backend error".to_owned(),
        }
    }
}

/// True of a backend status code that reports success.
pub open spec fn is_success_status(status: u16) -> bool {
    200 <= status < 300
}

/// The health gate: every public operation of this layer consults the
/// backend's liveness probe first and, if it failed, short-circuits without
/// attempting any backend mutation.  The probe itself is transport-layer I/O;
/// its verdict arrives here as `server_up`.
pub fn gate(server_up: bool) -> (r: Result<(), ErrorKind>)
    ensures
        r == if server_up {
            Result::<(), ErrorKind>::Ok(())
        } else {
            Result::<(), ErrorKind>::Err(ErrorKind::BackendUnavailable)
        },
{
    if server_up {
        Ok(())
    } else {
        Err(ErrorKind::BackendUnavailable)
    }
}

/// Folds the status code of a backend point-lookup into this layer's result
/// kinds: success passes, a missing document is `NotFound` naming the id
/// that was looked up, and anything else is surfaced as the backend's own
/// status.
pub fn classify_lookup_status(status: u16, entity_id: &str) -> (r: Result<(), ErrorKind>)
    ensures
        is_success_status(status) ==> r == Result::<(), ErrorKind>::Ok(()),
        status == 404 ==> (r matches Err(e) && e matches ErrorKind::NotFound(ent) && ent@
            == entity_id@),
        !is_success_status(status) && status != 404 ==> r == Result::<(), ErrorKind>::Err(
            ErrorKind::Backend(status),
        ),
{
    if 200 <= status && status < 300 {
        Ok(())
    } else if status == 404 {
        Err(ErrorKind::NotFound(entity_id.to_owned()))
    } else {
        Err(ErrorKind::Backend(status))
    }
}

/// Folds the status code of the registration insert into this layer's
/// result kinds: created passes, a duplicate id is `Conflict`, and anything
/// else is surfaced as the backend's own status.
pub fn classify_insert_status(status: u16) -> (r: Result<(), ErrorKind>)
    ensures
        status == 201 ==> r == Result::<(), ErrorKind>::Ok(()),
        status == 409 ==> r == Result::<(), ErrorKind>::Err(ErrorKind::Conflict),
        status != 201 && status != 409 ==> r == Result::<(), ErrorKind>::Err(
            ErrorKind::Backend(status),
        ),
{
    if status == 201 {
        Ok(())
    } else if status == 409 {
        Err(ErrorKind::Conflict)
    } else {
        Err(ErrorKind::Backend(status))
    }
}

} // verus!
