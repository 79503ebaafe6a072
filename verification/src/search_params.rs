//! Parameters of the document-search and document operations, as the
//! transport layer hands them in: plain values only, already stripped of
//! their wire encoding.

use vstd::prelude::*;

use crate::query::{QueryBody, QueryClause, MIN_SHOULD_MATCH_PERCENT, fields_or_star, search_body_builder};
use crate::fields::split_trim_fields;

verus! {

/// A search request over one index: an optional free-text term, optional
/// comma-separated fields to search, optional comma-separated fields to
/// return, paging, and expansion controls.
pub struct DocumentSearchQuery {
    /// The free-text term; absent means match everything.
    pub search_term: Option<String>,
    /// Comma-separated fields to search; absent means every field.
    pub search_in: Option<String>,
    /// Comma-separated fields to return; absent means every field.
    pub return_fields: Option<String>,
    /// How many leading hits to skip.
    pub from: Option<i64>,
    /// How many hits to return.
    pub count: Option<i64>,
    /// Whether wildcard expansion is requested.
    pub wildcards: Option<bool>,
    /// Minimum term length before wildcard expansion applies.
    pub min_before_expansion: Option<usize>,
}

/// The optional comma-separated list of fields a point lookup should
/// return.
pub struct ReturnFields {
    /// Comma-separated fields to return; absent means every field.
    pub return_fields: Option<String>,
}

/// One failed entry of a bulk operation, as reported back to the caller.
pub struct BulkFailures {
    /// The position of the document inside the bulk request.
    pub document_number: usize,
    /// The backend's error text.
    pub error: String,
    /// The backend's status code for this entry.
    pub status: i64,
}

/// The addressing of one document: owning application, index, document id.
pub struct RequiredDocumentID {
    /// The owning application's id.
    pub app_id: String,
    /// The logical index name.
    pub index: String,
    /// The document's id.
    pub document_id: String,
}

/// An owned copy of an optional string, equal in the model.
pub fn clone_opt_string(o: &Option<String>) -> (r: Option<String>)
    ensures
        r.deep_view() == o.deep_view(),
{
    match o {
        Option::Some(s) => Option::Some(s.clone()),
        Option::None => Option::None,
    }
}

/// Splits an optional comma-separated field list into its trimmed names.
pub fn split_opt_fields(o: &Option<String>) -> (r: Option<Vec<String>>)
    ensures
        o is None ==> r is None,
        o matches Some(s) ==> (r matches Some(v) && v.deep_view() == crate::fields::parse_fields(
            s@,
        )),
{
    match o {
        Option::Some(s) => Option::Some(split_trim_fields(s.as_str())),
        Option::None => Option::None,
    }
}

impl DocumentSearchQuery {
    /// The backend query body this request describes: match-everything
    /// without a term, a cross-field query with the fixed threshold with
    /// one; the search and return field lists are parsed from their
    /// comma-separated specifications, defaulting to every field.
    pub fn build_body(&self) -> (q: QueryBody)
        ensures
            q.return_fields.deep_view() == fields_or_star(self.return_fields.deep_view()),
            self.search_term is None ==> q.clause is MatchAll,
            self.search_term matches Some(t) ==> (q.clause matches QueryClause::CrossFields {
                term,
                fields,
                min_should_match_percent,
            } && term@ == t@ && fields.deep_view() == fields_or_star(self.search_in.deep_view())
                && min_should_match_percent == MIN_SHOULD_MATCH_PERCENT),
    {
        let term = clone_opt_string(&self.search_term);
        let fields = split_opt_fields(&self.search_in);
        let ret = clone_opt_string(&self.return_fields);
        search_body_builder(term, fields, ret)
    }
}

} // verus!
