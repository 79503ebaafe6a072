//! Building backend query bodies.
//!
//! A user search request (an optional free-text term, optional fields to
//! search, an optional comma-separated list of fields to return) becomes the
//! backend's native query representation: a match-everything query when no
//! term is given, and a cross-field text query with a fixed 75% minimum-match
//! threshold when one is.  The builder is pure: no side effects, no backend
//! dependency.

use vstd::prelude::*;

use crate::fields::{parse_fields, split_trim_fields};

verus! {

/// The fixed relevance threshold of a cross-field query: at least this
/// percentage of the significant query terms must match.
pub const MIN_SHOULD_MATCH_PERCENT: u8 = 75;

/// The query part of a body: either match everything, or a cross-field text
/// query.
pub enum QueryClause {
    /// Matches every document, regardless of content.
    MatchAll,
    /// Matches documents where at least `min_should_match_percent` percent of
    /// the significant terms of `term` occur across `fields`.
    CrossFields { term: String, fields: Vec<String>, min_should_match_percent: u8 },
}

/// A backend query body: which fields of each hit to return, and the query
/// itself.
pub struct QueryBody {
    /// The fields of each matching document that the backend should include
    /// in its answer.
    pub return_fields: Vec<String>,
    /// The query proper.
    pub clause: QueryClause,
}

/// The fields named by an optional comma-separated specification: its
/// parsed, trimmed names, or every field (`*`) when none was given.
pub open spec fn fields_or_star(spec_opt: Option<Seq<char>>) -> Seq<Seq<char>> {
    match spec_opt {
        Option::Some(s) => parse_fields(s),
        Option::None => seq![seq!['*']],
    }
}

/// An optional, already-split field list: itself, or every field (`*`) when
/// none was given.
pub open spec fn given_or_star(fields_opt: Option<Seq<Seq<char>>>) -> Seq<Seq<char>> {
    match fields_opt {
        Option::Some(v) => v,
        Option::None => seq![seq!['*']],
    }
}

/// A one-element list holding the all-fields marker `*`.
fn star_fields() -> (r: Vec<String>)
    ensures
        r.deep_view() == seq![seq!['*']],
{
    proof {
        reveal_strlit("*");
    }
    let mut v: Vec<String> = Vec::new();
    v.push("*".to_owned());
    proof {
        assert("*"@ =~= seq!['*']);
        assert(v.deep_view() =~= seq![seq!['*']]);
    }
    v
}

/// Builds the query body for a user search request.
///
/// Without a term the query matches every document, filtered only by the
/// requested return fields; with a term it is a cross-field query over the
/// given (or default `*`) search fields, with the fixed 75% minimum-match
/// threshold.  The returned fields default to `*` and are otherwise parsed
/// from the comma-separated `retrieve_field`, trimming whitespace around
/// each name.
pub fn search_body_builder(
    search_term: Option<String>,
    search_in: Option<Vec<String>>,
    retrieve_field: Option<String>,
) -> (q: QueryBody)
    ensures
        q.return_fields.deep_view() == fields_or_star(retrieve_field.deep_view()),
        search_term is None ==> q.clause is MatchAll,
        search_term matches Option::Some(t) ==> (q.clause matches QueryClause::CrossFields {
            term,
            fields,
            min_should_match_percent,
        } && term@ == t@ && fields.deep_view() == given_or_star(search_in.deep_view())
            && min_should_match_percent == MIN_SHOULD_MATCH_PERCENT),
{
    let return_fields = match retrieve_field {
        Option::Some(val) => split_trim_fields(val.as_str()),
        Option::None => star_fields(),
    };
    let clause = match search_term {
        Option::Some(term) => {
            let fields = match search_in {
                Option::Some(v) => v,
                Option::None => star_fields(),
            };
            QueryClause::CrossFields { term, fields, min_should_match_percent: MIN_SHOULD_MATCH_PERCENT }
        },
        Option::None => QueryClause::MatchAll,
    };
    QueryBody { return_fields, clause }
}

/// The query body with which the registry is searched when listing
/// applications: an optional name term, and only the id, name and shard-list
/// fields of each record returned.
pub fn application_list_query(app_name: Option<String>) -> (q: QueryBody)
    ensures
        q.return_fields.deep_view() == parse_fields("_id,name,indexes"@),
        app_name is None ==> q.clause is MatchAll,
        app_name matches Option::Some(t) ==> (q.clause matches QueryClause::CrossFields {
            term,
            fields,
            min_should_match_percent,
        } && term@ == t@ && fields.deep_view() == seq![seq!['*']]
            && min_should_match_percent == MIN_SHOULD_MATCH_PERCENT),
{
    search_body_builder(app_name, None, Some("_id,name,indexes".to_owned()))
}

} // verus!
