//! Search over projects and repositories visible to the caller. The
//! request is declared over the `health` path and carries the search
//! words as the `q` query parameter.

use vstd::prelude::*;
use vstd::pervasive::unreached;
use crate::errors::{BuildError, RenderError};
use crate::fields::{BoundField, BoundFieldView, bound, meta_header_renamed, meta_renamed};
use crate::headers::render_headers;
use crate::render::render_url;
use crate::request::{HarborRequest, lemma_wf_no_placeholder};
use crate::request::v2::health::get::lemma_tpl_health;
use crate::text::opt_string_clone;

verus! {

/// Search for projects and repositories by name.
pub struct GetSearch {
    /// An unique ID for the request, sent as the `X-Request-Id` header.
    pub request_id: Option<String>,
    /// Search words for project and repository names, sent as `q`.
    pub query: String,
}

impl GetSearch {
    /// A builder holding the search words, the request id unset.
    pub fn builder(query: &str) -> (r: GetSearchBuilder)
        ensures
            r.query.deep_view() == Some(query@),
            r.request_id is None,
    {
        GetSearchBuilder { request_id: None, query: Some(query.to_owned()) }
    }

    fn bound_fields(&self) -> (r: Vec<BoundField>)
        ensures
            r.deep_view() == self.spec_fields(),
    {
        let mut v: Vec<BoundField> = Vec::new();
        v.push(
            BoundField::header_renamed(
                "request_id",
                "X-Request-Id",
                opt_string_clone(&self.request_id),
            ),
        );
        v.push(BoundField::renamed("query", "q", Some(self.query.clone())));
        proof {
            assert(v.deep_view() =~= self.spec_fields());
        }
        v
    }
}

impl HarborRequest for GetSearch {
    open spec fn spec_template(&self) -> Seq<char> {
        "health"@
    }

    open spec fn spec_fields(&self) -> Seq<BoundFieldView> {
        seq![
            bound(
                meta_header_renamed("request_id"@, "X-Request-Id"@),
                self.request_id.deep_view(),
            ),
            bound(meta_renamed("query"@, "q"@), Some(self.query@)),
        ]
    }

    proof fn wf(&self) {
        lemma_tpl_health();
        lemma_wf_no_placeholder(self.spec_template(), self.spec_fields());
    }

    fn to_url(&self) -> (r: String) {
        proof {
            self.wf();
        }
        let fields = self.bound_fields();
        match render_url("health", &fields) {
            Ok(u) => u,
            Err(_) => unreached(),
        }
    }

    fn headers(&self) -> (r: Result<Vec<(String, String)>, RenderError>) {
        let fields = self.bound_fields();
        render_headers(&fields)
    }
}

/// Accumulates the fields of a `GetSearch` request.
pub struct GetSearchBuilder {
    pub request_id: Option<String>,
    pub query: Option<String>,
}

impl GetSearchBuilder {
    pub fn request_id(self, request_id: &str) -> (r: Self)
        ensures
            r.request_id matches Some(v) && v@ == request_id@,
            r == (Self { request_id: r.request_id, ..self }),
    {
        Self { request_id: Some(request_id.to_owned()), ..self }
    }

    /// Finalizes the builder; the search words are required.
    pub fn build(self) -> (r: Result<GetSearch, BuildError>)
        ensures
            self.query matches Some(q) ==> r matches Ok(g) && g == (GetSearch {
                request_id: self.request_id,
                query: q,
            }),
            self.query is None ==> r is Err,
    {
        match self.query {
            Some(q) => Ok(GetSearch { request_id: self.request_id, query: q }),
            None => Err(BuildError::MissingField(String::from_str("query"))),
        }
    }
}

} // verus!
