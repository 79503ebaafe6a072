//! Parameters of the routed document endpoints, as the transport layer
//! hands them in: plain values only, already stripped of their wire
//! encoding.

use vstd::prelude::*;

use crate::query::{QueryBody, QueryClause, MIN_SHOULD_MATCH_PERCENT, fields_or_star, search_body_builder};
use crate::search_params::{clone_opt_string, split_opt_fields};

verus! {

/// A search request that names its index in the body.
pub struct DocumentSearch {
    /// The logical index to search.
    pub index: String,
    /// The free-text term; absent means match everything.
    pub search_term: Option<String>,
    /// Comma-separated fields to search; absent means every field.
    pub search_in: Option<String>,
    /// Comma-separated fields to return; absent means every field.
    pub return_fields: Option<String>,
    /// How many leading hits to skip.
    pub from: Option<i64>,
    /// How many hits to return.
    pub count: Option<i64>,
}

/// The index a search route addresses.
pub struct GetDocumentSearchIndex {
    /// The logical index to search.
    pub index: String,
}

/// The query parameters of a search route.
pub struct GetDocumentSearchQuery {
    /// The free-text term; absent means match everything.
    pub search_term: Option<String>,
    /// Comma-separated fields to search; absent means every field.
    pub search_in: Option<String>,
    /// Comma-separated fields to return; absent means every field.
    pub return_fields: Option<String>,
    /// How many leading hits to skip.
    pub from: Option<i64>,
    /// How many hits to return.
    pub count: Option<i64>,
}

/// The addressing of one document within one index.
pub struct DocById {
    /// The logical index holding the document.
    pub index: String,
    /// The document's id.
    pub document_id: String,
}

/// The optional comma-separated list of fields a point lookup should
/// return.
pub struct ReturnFields {
    /// Comma-separated fields to return; absent means every field.
    pub return_fields: Option<String>,
}

/// The addressing of one document to delete.
pub struct DocumentDelete {
    /// The logical index holding the document.
    pub index: String,
    /// The document's id.
    pub document_id: String,
}

impl DocumentSearch {
    /// The backend query body this request describes; see
    /// `search_body_builder`.
    pub fn build_body(&self) -> (q: QueryBody)
        ensures
            q.return_fields.deep_view() == fields_or_star(self.return_fields.deep_view()),
            self.search_term is None ==> q.clause is MatchAll,
            self.search_term matches Some(t) ==> (q.clause matches QueryClause::CrossFields {
                term,
                fields,
                min_should_match_percent,
            } && term@ == t@ && fields.deep_view() == fields_or_star(self.search_in.deep_view())
                && min_should_match_percent == MIN_SHOULD_MATCH_PERCENT),
    {
        let term = clone_opt_string(&self.search_term);
        let fields = split_opt_fields(&self.search_in);
        let ret = clone_opt_string(&self.return_fields);
        search_body_builder(term, fields, ret)
    }
}

impl GetDocumentSearchQuery {
    /// The backend query body this request describes; see
    /// `search_body_builder`.
    pub fn build_body(&self) -> (q: QueryBody)
        ensures
            q.return_fields.deep_view() == fields_or_star(self.return_fields.deep_view()),
            self.search_term is None ==> q.clause is MatchAll,
            self.search_term matches Some(t) ==> (q.clause matches QueryClause::CrossFields {
                term,
                fields,
                min_should_match_percent,
            } && term@ == t@ && fields.deep_view() == fields_or_star(self.search_in.deep_view())
                && min_should_match_percent == MIN_SHOULD_MATCH_PERCENT),
    {
        let term = clone_opt_string(&self.search_term);
        let fields = split_opt_fields(&self.search_in);
        let ret = clone_opt_string(&self.return_fields);
        search_body_builder(term, fields, ret)
    }
}

} // verus!
