//! Counts of projects, repositories and storage use.

use vstd::prelude::*;
use vstd::pervasive::unreached;
use crate::errors::{BuildError, RenderError};
use crate::fields::{BoundField, BoundFieldView, bound, meta_header_renamed};
use crate::headers::render_headers;
use crate::render::render_url;
use crate::request::{HarborRequest, lemma_wf_no_placeholder};
use crate::template::{placeholders_from, spec_placeholders};
use crate::text::opt_string_clone;

verus! {

/// The placeholder structure of `"statistics"`.
proof fn lemma_tpl_statistics()
    ensures
        spec_placeholders("statistics"@) =~= Seq::<Seq<char>>::empty(),
{
    reveal_strlit("statistics");
    let t = "statistics"@;
    assert(t.len() == 10);
    reveal_with_fuel(placeholders_from, 12);
    assert(placeholders_from(t, 0) =~= Seq::<Seq<char>>::empty());
}

/// Project, repository and storage statistics.
pub struct GetStatistics {
    /// An unique ID for the request, sent as the `X-Request-Id` header.
    pub request_id: Option<String>,
}

impl GetStatistics {
    /// A builder with the request id unset.
    pub fn builder() -> (r: GetStatisticsBuilder)
        ensures
            r.request_id is None,
    {
        GetStatisticsBuilder { request_id: None }
    }

    fn bound_fields(&self) -> (r: Vec<BoundField>)
        ensures
            r.deep_view() == self.spec_fields(),
    {
        let mut v: Vec<BoundField> = Vec::new();
        v.push(
            BoundField::header_renamed(
                "request_id",
                "X-Request-Id",
                opt_string_clone(&self.request_id),
            ),
        );
        proof {
            assert(v.deep_view() =~= self.spec_fields());
        }
        v
    }
}

impl HarborRequest for GetStatistics {
    open spec fn spec_template(&self) -> Seq<char> {
        "statistics"@
    }

    open spec fn spec_fields(&self) -> Seq<BoundFieldView> {
        seq![
            bound(
                meta_header_renamed("request_id"@, "X-Request-Id"@),
                self.request_id.deep_view(),
            ),
        ]
    }

    proof fn wf(&self) {
        lemma_tpl_statistics();
        lemma_wf_no_placeholder(self.spec_template(), self.spec_fields());
    }

    fn to_url(&self) -> (r: String) {
        proof {
            self.wf();
        }
        let fields = self.bound_fields();
        match render_url("statistics", &fields) {
            Ok(u) => u,
            Err(_) => unreached(),
        }
    }

    fn headers(&self) -> (r: Result<Vec<(String, String)>, RenderError>) {
        let fields = self.bound_fields();
        render_headers(&fields)
    }
}

/// Accumulates the fields of a `GetStatistics` request.
pub struct GetStatisticsBuilder {
    pub request_id: Option<String>,
}

impl GetStatisticsBuilder {
    pub fn request_id(self, request_id: &str) -> (r: Self)
        ensures
            r.request_id matches Some(v) && v@ == request_id@,
    {
        Self { request_id: Some(request_id.to_owned()) }
    }

    /// Finalizes the builder; no field is required.
    pub fn build(self) -> (r: Result<GetStatistics, BuildError>)
        ensures
            r matches Ok(g) && g == (GetStatistics { request_id: self.request_id }),
    {
        Ok(GetStatistics { request_id: self.request_id })
    }
}

} // verus!
