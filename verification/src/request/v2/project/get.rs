//! Project endpoints of API version 2: the same paths as the first
//! version, with per-request headers (request id, resource-name flag,
//! accepted vulnerability report types).

use vstd::prelude::*;
use vstd::pervasive::unreached;
use crate::errors::{BuildError, RenderError};
use crate::fields::{
    BoundField, BoundFieldView, bound, meta_header_renamed, meta_plain,
};
use crate::headers::render_headers;
use crate::render::render_url;
use crate::request::{HarborRequest, lemma_wf_no_placeholder, lemma_wf_one_placeholder};
use crate::request::project::get::{
    lemma_tpl_artifacts, lemma_tpl_deletable, lemma_tpl_project, lemma_tpl_projects,
    lemma_tpl_summary,
};
use crate::text::{opt_bool_str, opt_bool_to_string, opt_i32_str, opt_i32_to_string,
    opt_string_clone};

verus! {

/// This endpoint returns specific project information by project ID.
pub struct GetProject {
    /// An unique ID for the request, sent as the `X-Request-Id` header.
    pub request_id: Option<String>,
    /// Whether the path parameter names the resource rather than an id,
    /// sent as the `X-Is-Resource-Name` header.
    pub is_resource_name: Option<bool>,
    /// The name or id of the project.
    pub project_name_or_id: String,
}

impl GetProject {
    /// A builder holding the project name, every option unset.
    pub fn builder(project_name_or_id: &str) -> (r: GetProjectBuilder)
        ensures
            r.project_name_or_id.deep_view() == Some(project_name_or_id@),
            r.request_id is None,
            r.is_resource_name is None,
    {
        GetProjectBuilder {
            request_id: None,
            is_resource_name: None,
            project_name_or_id: Some(project_name_or_id.to_owned()),
        }
    }

    fn bound_fields(&self) -> (r: Vec<BoundField>)
        ensures
            r.deep_view() == self.spec_fields(),
    {
        let mut v: Vec<BoundField> = Vec::new();
        v.push(
            BoundField::header_renamed(
                "request_id",
                "X-Request-Id",
                opt_string_clone(&self.request_id),
            ),
        );
        v.push(
            BoundField::header_renamed(
                "is_resource_name",
                "X-Is-Resource-Name",
                opt_bool_to_string(&self.is_resource_name),
            ),
        );
        v.push(BoundField::required("project_name_or_id", self.project_name_or_id.clone()));
        proof {
            assert(v.deep_view() =~= self.spec_fields());
        }
        v
    }
}

impl HarborRequest for GetProject {
    open spec fn spec_template(&self) -> Seq<char> {
        "projects/{project_name_or_id}"@
    }

    open spec fn spec_fields(&self) -> Seq<BoundFieldView> {
        seq![
            bound(
                meta_header_renamed("request_id"@, "X-Request-Id"@),
                self.request_id.deep_view(),
            ),
            bound(
                meta_header_renamed("is_resource_name"@, "X-Is-Resource-Name"@),
                opt_bool_str(self.is_resource_name),
            ),
            bound(meta_plain("project_name_or_id"@), Some(self.project_name_or_id@)),
        ]
    }

    proof fn wf(&self) {
        lemma_tpl_project();
        lemma_wf_one_placeholder(
            self.spec_template(),
            self.spec_fields(),
            "project_name_or_id"@,
            2,
        );
    }

    fn to_url(&self) -> (r: String) {
        proof {
            self.wf();
        }
        let fields = self.bound_fields();
        match render_url("projects/{project_name_or_id}", &fields) {
            Ok(u) => u,
            Err(_) => unreached(),
        }
    }

    fn headers(&self) -> (r: Result<Vec<(String, String)>, RenderError>) {
        let fields = self.bound_fields();
        render_headers(&fields)
    }
}

/// Accumulates the fields of a version 2 `GetProject` request.
pub struct GetProjectBuilder {
    pub request_id: Option<String>,
    pub is_resource_name: Option<bool>,
    pub project_name_or_id: Option<String>,
}

impl GetProjectBuilder {
    pub fn request_id(self, request_id: &str) -> (r: Self)
        ensures
            r.request_id matches Some(v) && v@ == request_id@,
            r == (Self { request_id: r.request_id, ..self }),
    {
        Self { request_id: Some(request_id.to_owned()), ..self }
    }

    pub fn is_resource_name(self, is_resource_name: bool) -> (r: Self)
        ensures
            r == (Self { is_resource_name: Some(is_resource_name), ..self }),
    {
        Self { is_resource_name: Some(is_resource_name), ..self }
    }

    /// Finalizes the builder; the project name is required.
    pub fn build(self) -> (r: Result<GetProject, BuildError>)
        ensures
            self.project_name_or_id matches Some(p) ==> r matches Ok(g) && g == (GetProject {
                request_id: self.request_id,
                is_resource_name: self.is_resource_name,
                project_name_or_id: p,
            }),
            self.project_name_or_id is None ==> r is Err,
    {
        match self.project_name_or_id {
            Some(p) => Ok(
                GetProject {
                    request_id: self.request_id,
                    is_resource_name: self.is_resource_name,
                    project_name_or_id: p,
                },
            ),
            None => Err(BuildError::MissingField(String::from_str("project_name_or_id"))),
        }
    }
}

/// Get the deletable status of the project.
pub struct GetProjectDeletable {
    /// An unique ID for the request, sent as the `X-Request-Id` header.
    pub request_id: Option<String>,
    /// Whether the path parameter names the resource rather than an id,
    /// sent as the `X-Is-Resource-Name` header.
    pub is_resource_name: Option<bool>,
    /// The name or id of the project.
    pub project_name_or_id: String,
}

impl GetProjectDeletable {
    /// A builder holding the project name, every option unset.
    pub fn builder(project_name_or_id: &str) -> (r: GetProjectDeletableBuilder)
        ensures
            r.project_name_or_id.deep_view() == Some(project_name_or_id@),
            r.request_id is None,
            r.is_resource_name is None,
    {
        GetProjectDeletableBuilder {
            request_id: None,
            is_resource_name: None,
            project_name_or_id: Some(project_name_or_id.to_owned()),
        }
    }

    fn bound_fields(&self) -> (r: Vec<BoundField>)
        ensures
            r.deep_view() == self.spec_fields(),
    {
        let mut v: Vec<BoundField> = Vec::new();
        v.push(
            BoundField::header_renamed(
                "request_id",
                "X-Request-Id",
                opt_string_clone(&self.request_id),
            ),
        );
        v.push(
            BoundField::header_renamed(
                "is_resource_name",
                "X-Is-Resource-Name",
                opt_bool_to_string(&self.is_resource_name),
            ),
        );
        v.push(BoundField::required("project_name_or_id", self.project_name_or_id.clone()));
        proof {
            assert(v.deep_view() =~= self.spec_fields());
        }
        v
    }
}

impl HarborRequest for GetProjectDeletable {
    open spec fn spec_template(&self) -> Seq<char> {
        "projects/{project_name_or_id}/_deletable"@
    }

    open spec fn spec_fields(&self) -> Seq<BoundFieldView> {
        seq![
            bound(
                meta_header_renamed("request_id"@, "X-Request-Id"@),
                self.request_id.deep_view(),
            ),
            bound(
                meta_header_renamed("is_resource_name"@, "X-Is-Resource-Name"@),
                opt_bool_str(self.is_resource_name),
            ),
            bound(meta_plain("project_name_or_id"@), Some(self.project_name_or_id@)),
        ]
    }

    proof fn wf(&self) {
        lemma_tpl_deletable();
        lemma_wf_one_placeholder(
            self.spec_template(),
            self.spec_fields(),
            "project_name_or_id"@,
            2,
        );
    }

    fn to_url(&self) -> (r: String) {
        proof {
            self.wf();
        }
        let fields = self.bound_fields();
        match render_url("projects/{project_name_or_id}/_deletable", &fields) {
            Ok(u) => u,
            Err(_) => unreached(),
        }
    }

    fn headers(&self) -> (r: Result<Vec<(String, String)>, RenderError>) {
        let fields = self.bound_fields();
        render_headers(&fields)
    }
}

/// Accumulates the fields of a version 2 `GetProjectDeletable` request.
pub struct GetProjectDeletableBuilder {
    pub request_id: Option<String>,
    pub is_resource_name: Option<bool>,
    pub project_name_or_id: Option<String>,
}

impl GetProjectDeletableBuilder {
    pub fn request_id(self, request_id: &str) -> (r: Self)
        ensures
            r.request_id matches Some(v) && v@ == request_id@,
            r == (Self { request_id: r.request_id, ..self }),
    {
        Self { request_id: Some(request_id.to_owned()), ..self }
    }

    pub fn is_resource_name(self, is_resource_name: bool) -> (r: Self)
        ensures
            r == (Self { is_resource_name: Some(is_resource_name), ..self }),
    {
        Self { is_resource_name: Some(is_resource_name), ..self }
    }

    /// Finalizes the builder; the project name is required.
    pub fn build(self) -> (r: Result<GetProjectDeletable, BuildError>)
        ensures
            self.project_name_or_id matches Some(p) ==> r matches Ok(g) && g
                == (GetProjectDeletable {
                request_id: self.request_id,
                is_resource_name: self.is_resource_name,
                project_name_or_id: p,
            }),
            self.project_name_or_id is None ==> r is Err,
    {
        match self.project_name_or_id {
            Some(p) => Ok(
                GetProjectDeletable {
                    request_id: self.request_id,
                    is_resource_name: self.is_resource_name,
                    project_name_or_id: p,
                },
            ),
            None => Err(BuildError::MissingField(String::from_str("project_name_or_id"))),
        }
    }
}

/// Get summary of the project.
pub struct GetProjectSummary {
    /// An unique ID for the request, sent as the `X-Request-Id` header.
    pub request_id: Option<String>,
    /// Whether the path parameter names the resource rather than an id,
    /// sent as the `X-Is-Resource-Name` header.
    pub is_resource_name: Option<bool>,
    /// The name or id of the project.
    pub project_name_or_id: String,
}

impl GetProjectSummary {
    /// A builder holding the project name, every option unset.
    pub fn builder(project_name_or_id: &str) -> (r: GetProjectSummaryBuilder)
        ensures
            r.project_name_or_id.deep_view() == Some(project_name_or_id@),
            r.request_id is None,
            r.is_resource_name is None,
    {
        GetProjectSummaryBuilder {
            request_id: None,
            is_resource_name: None,
            project_name_or_id: Some(project_name_or_id.to_owned()),
        }
    }

    fn bound_fields(&self) -> (r: Vec<BoundField>)
        ensures
            r.deep_view() == self.spec_fields(),
    {
        let mut v: Vec<BoundField> = Vec::new();
        v.push(
            BoundField::header_renamed(
                "request_id",
                "X-Request-Id",
                opt_string_clone(&self.request_id),
            ),
        );
        v.push(
            BoundField::header_renamed(
                "is_resource_name",
                "X-Is-Resource-Name",
                opt_bool_to_string(&self.is_resource_name),
            ),
        );
        v.push(BoundField::required("project_name_or_id", self.project_name_or_id.clone()));
        proof {
            assert(v.deep_view() =~= self.spec_fields());
        }
        v
    }
}

impl HarborRequest for GetProjectSummary {
    open spec fn spec_template(&self) -> Seq<char> {
        "projects/{project_name_or_id}/summary"@
    }

    open spec fn spec_fields(&self) -> Seq<BoundFieldView> {
        seq![
            bound(
                meta_header_renamed("request_id"@, "X-Request-Id"@),
                self.request_id.deep_view(),
            ),
            bound(
                meta_header_renamed("is_resource_name"@, "X-Is-Resource-Name"@),
                opt_bool_str(self.is_resource_name),
            ),
            bound(meta_plain("project_name_or_id"@), Some(self.project_name_or_id@)),
        ]
    }

    proof fn wf(&self) {
        lemma_tpl_summary();
        lemma_wf_one_placeholder(
            self.spec_template(),
            self.spec_fields(),
            "project_name_or_id"@,
            2,
        );
    }

    fn to_url(&self) -> (r: String) {
        proof {
            self.wf();
        }
        let fields = self.bound_fields();
        match render_url("projects/{project_name_or_id}/summary", &fields) {
            Ok(u) => u,
            Err(_) => unreached(),
        }
    }

    fn headers(&self) -> (r: Result<Vec<(String, String)>, RenderError>) {
        let fields = self.bound_fields();
        render_headers(&fields)
    }
}

/// Accumulates the fields of a version 2 `GetProjectSummary` request.
pub struct GetProjectSummaryBuilder {
    pub request_id: Option<String>,
    pub is_resource_name: Option<bool>,
    pub project_name_or_id: Option<String>,
}

impl GetProjectSummaryBuilder {
    pub fn request_id(self, request_id: &str) -> (r: Self)
        ensures
            r.request_id matches Some(v) && v@ == request_id@,
            r == (Self { request_id: r.request_id, ..self }),
    {
        Self { request_id: Some(request_id.to_owned()), ..self }
    }

    pub fn is_resource_name(self, is_resource_name: bool) -> (r: Self)
        ensures
            r == (Self { is_resource_name: Some(is_resource_name), ..self }),
    {
        Self { is_resource_name: Some(is_resource_name), ..self }
    }

    /// Finalizes the builder; the project name is required.
    pub fn build(self) -> (r: Result<GetProjectSummary, BuildError>)
        ensures
            self.project_name_or_id matches Some(p) ==> r matches Ok(g) && g
                == (GetProjectSummary {
                request_id: self.request_id,
                is_resource_name: self.is_resource_name,
                project_name_or_id: p,
            }),
            self.project_name_or_id is None ==> r is Err,
    {
        match self.project_name_or_id {
            Some(p) => Ok(
                GetProjectSummary {
                    request_id: self.request_id,
                    is_resource_name: self.is_resource_name,
                    project_name_or_id: p,
                },
            ),
            None => Err(BuildError::MissingField(String::from_str("project_name_or_id"))),
        }
    }
}

/// List artifacts of the specified project.
pub struct GetProjectArtifacts {
    /// An unique ID for the request, sent as the `X-Request-Id` header.
    pub request_id: Option<String>,
    /// Whether the path parameter names the resource rather than an id,
    /// sent as the `X-Is-Resource-Name` header.
    pub is_resource_name: Option<bool>,
    /// MIME types to accept for scan reports, sent as the
    /// `X-Accept-Vulnerabilities` header.
    pub accept_vulnerabilities: Option<String>,
    /// The name or id of the project.
    pub project_name_or_id: String,
    /// Query string to query resources.
    pub q: Option<String>,
    /// Sort the resource list in ascending or descending order.
    pub sort: Option<String>,
    /// The page number.
    pub page: Option<i32>,
    /// The size of per page.
    pub page_size: Option<i32>,
    /// Whether the tags are included inside the returning artifacts.
    pub with_tag: Option<bool>,
    /// Whether the labels are included inside the returning artifacts.
    pub with_label: Option<bool>,
    /// Whether the scan overview is included inside the returning artifacts.
    pub with_scan_overview: Option<bool>,
    /// Whether the SBOM overview is included in returning artifacts.
    pub with_sbom_overview: Option<bool>,
    /// Whether the immutable status is included inside the tags.
    pub with_immutable_status: Option<bool>,
    /// Whether the accessories are included of the returning artifacts.
    pub with_accessory: Option<bool>,
    /// Whether only the latest pushed artifact of each repository is
    /// included.
    pub latest_in_repository: Option<bool>,
}

impl Default for GetProjectArtifacts {
    /// The empty instance: no project and every option absent.
    fn default() -> (r: GetProjectArtifacts)
        ensures
            r.request_id is None,
            r.is_resource_name is None,
            r.accept_vulnerabilities is None,
            r.project_name_or_id@ == Seq::<char>::empty(),
            r.q is None,
            r.sort is None,
            r.page is None,
            r.page_size is None,
            r.with_tag is None,
            r.with_label is None,
            r.with_scan_overview is None,
            r.with_sbom_overview is None,
            r.with_immutable_status is None,
            r.with_accessory is None,
            r.latest_in_repository is None,
    {
        GetProjectArtifacts {
            request_id: None,
            is_resource_name: None,
            accept_vulnerabilities: None,
            project_name_or_id: String::new(),
            q: None,
            sort: None,
            page: None,
            page_size: None,
            with_tag: None,
            with_label: None,
            with_scan_overview: None,
            with_sbom_overview: None,
            with_immutable_status: None,
            with_accessory: None,
            latest_in_repository: None,
        }
    }
}

impl GetProjectArtifacts {
    /// A builder holding the project name, every option unset.
    pub fn builder(project_name_or_id: &str) -> (r: GetProjectArtifactsBuilder)
        ensures
            r.project_name_or_id.deep_view() == Some(project_name_or_id@),
            r.request_id is None,
            r.is_resource_name is None,
            r.accept_vulnerabilities is None,
            r.q is None,
            r.sort is None,
            r.page is None,
            r.page_size is None,
            r.with_tag is None,
            r.with_label is None,
            r.with_scan_overview is None,
            r.with_sbom_overview is None,
            r.with_immutable_status is None,
            r.with_accessory is None,
            r.latest_in_repository is None,
    {
        GetProjectArtifactsBuilder {
            request_id: None,
            is_resource_name: None,
            accept_vulnerabilities: None,
            project_name_or_id: Some(project_name_or_id.to_owned()),
            q: None,
            sort: None,
            page: None,
            page_size: None,
            with_tag: None,
            with_label: None,
            with_scan_overview: None,
            with_sbom_overview: None,
            with_immutable_status: None,
            with_accessory: None,
            latest_in_repository: None,
        }
    }

    fn bound_fields(&self) -> (r: Vec<BoundField>)
        ensures
            r.deep_view() == self.spec_fields(),
    {
        let mut v: Vec<BoundField> = Vec::new();
        v.push(
            BoundField::header_renamed(
                "request_id",
                "X-Request-Id",
                opt_string_clone(&self.request_id),
            ),
        );
        v.push(
            BoundField::header_renamed(
                "is_resource_name",
                "X-Is-Resource-Name",
                opt_bool_to_string(&self.is_resource_name),
            ),
        );
        v.push(
            BoundField::header_renamed(
                "accept_vulnerabilities",
                "X-Accept-Vulnerabilities",
                opt_string_clone(&self.accept_vulnerabilities),
            ),
        );
        v.push(BoundField::required("project_name_or_id", self.project_name_or_id.clone()));
        v.push(BoundField::optional("q", opt_string_clone(&self.q)));
        v.push(BoundField::optional("sort", opt_string_clone(&self.sort)));
        v.push(BoundField::optional("page", opt_i32_to_string(&self.page)));
        v.push(BoundField::optional("page_size", opt_i32_to_string(&self.page_size)));
        v.push(BoundField::optional("with_tag", opt_bool_to_string(&self.with_tag)));
        v.push(BoundField::optional("with_label", opt_bool_to_string(&self.with_label)));
        v.push(
            BoundField::optional("with_scan_overview", opt_bool_to_string(&self.with_scan_overview)),
        );
        v.push(
            BoundField::optional("with_sbom_overview", opt_bool_to_string(&self.with_sbom_overview)),
        );
        v.push(
            BoundField::optional(
                "with_immutable_status",
                opt_bool_to_string(&self.with_immutable_status),
            ),
        );
        v.push(BoundField::optional("with_accessory", opt_bool_to_string(&self.with_accessory)));
        v.push(
            BoundField::optional(
                "latest_in_repository",
                opt_bool_to_string(&self.latest_in_repository),
            ),
        );
        proof {
            assert(v.deep_view() =~= self.spec_fields());
        }
        v
    }
}

impl HarborRequest for GetProjectArtifacts {
    open spec fn spec_template(&self) -> Seq<char> {
        "projects/{project_name_or_id}/artifacts"@
    }

    open spec fn spec_fields(&self) -> Seq<BoundFieldView> {
        seq![
            bound(
                meta_header_renamed("request_id"@, "X-Request-Id"@),
                self.request_id.deep_view(),
            ),
            bound(
                meta_header_renamed("is_resource_name"@, "X-Is-Resource-Name"@),
                opt_bool_str(self.is_resource_name),
            ),
            bound(
                meta_header_renamed("accept_vulnerabilities"@, "X-Accept-Vulnerabilities"@),
                self.accept_vulnerabilities.deep_view(),
            ),
            bound(meta_plain("project_name_or_id"@), Some(self.project_name_or_id@)),
            bound(meta_plain("q"@), self.q.deep_view()),
            bound(meta_plain("sort"@), self.sort.deep_view()),
            bound(meta_plain("page"@), opt_i32_str(self.page)),
            bound(meta_plain("page_size"@), opt_i32_str(self.page_size)),
            bound(meta_plain("with_tag"@), opt_bool_str(self.with_tag)),
            bound(meta_plain("with_label"@), opt_bool_str(self.with_label)),
            bound(meta_plain("with_scan_overview"@), opt_bool_str(self.with_scan_overview)),
            bound(meta_plain("with_sbom_overview"@), opt_bool_str(self.with_sbom_overview)),
            bound(meta_plain("with_immutable_status"@), opt_bool_str(self.with_immutable_status)),
            bound(meta_plain("with_accessory"@), opt_bool_str(self.with_accessory)),
            bound(meta_plain("latest_in_repository"@), opt_bool_str(self.latest_in_repository)),
        ]
    }

    proof fn wf(&self) {
        lemma_tpl_artifacts();
        let fs = self.spec_fields();
        let name = "project_name_or_id"@;
        assert forall|j: int|
            0 <= j < fs.len() && j != 3 implies !crate::fields::is_path_field(
            #[trigger] fs[j],
            name,
        ) by {
            reveal_strlit("project_name_or_id");
            reveal_strlit("q");
            reveal_strlit("sort");
            reveal_strlit("page");
            reveal_strlit("page_size");
            reveal_strlit("with_tag");
            reveal_strlit("with_label");
            reveal_strlit("with_scan_overview");
            reveal_strlit("with_sbom_overview");
            reveal_strlit("with_immutable_status");
            reveal_strlit("with_accessory");
            reveal_strlit("latest_in_repository");
            assert("project_name_or_id"@.len() == 18);
            assert("with_scan_overview"@[0] == 'w' && "project_name_or_id"@[0] == 'p');
            assert("with_sbom_overview"@[0] == 'w');
        };
        lemma_wf_one_placeholder(self.spec_template(), fs, name, 3);
    }

    fn to_url(&self) -> (r: String) {
        proof {
            self.wf();
        }
        let fields = self.bound_fields();
        match render_url("projects/{project_name_or_id}/artifacts", &fields) {
            Ok(u) => u,
            Err(_) => unreached(),
        }
    }

    fn headers(&self) -> (r: Result<Vec<(String, String)>, RenderError>) {
        let fields = self.bound_fields();
        render_headers(&fields)
    }
}

/// Accumulates the fields of a version 2 `GetProjectArtifacts` request.
pub struct GetProjectArtifactsBuilder {
    pub request_id: Option<String>,
    pub is_resource_name: Option<bool>,
    pub accept_vulnerabilities: Option<String>,
    pub project_name_or_id: Option<String>,
    pub q: Option<String>,
    pub sort: Option<String>,
    pub page: Option<i32>,
    pub page_size: Option<i32>,
    pub with_tag: Option<bool>,
    pub with_label: Option<bool>,
    pub with_scan_overview: Option<bool>,
    pub with_sbom_overview: Option<bool>,
    pub with_immutable_status: Option<bool>,
    pub with_accessory: Option<bool>,
    pub latest_in_repository: Option<bool>,
}

impl GetProjectArtifactsBuilder {
    pub fn request_id(self, request_id: &str) -> (r: Self)
        ensures
            r.request_id matches Some(v) && v@ == request_id@,
            r == (Self { request_id: r.request_id, ..self }),
    {
        Self { request_id: Some(request_id.to_owned()), ..self }
    }

    pub fn is_resource_name(self, is_resource_name: bool) -> (r: Self)
        ensures
            r == (Self { is_resource_name: Some(is_resource_name), ..self }),
    {
        Self { is_resource_name: Some(is_resource_name), ..self }
    }

    pub fn accept_vulnerabilities(self, accept_vulnerabilities: &str) -> (r: Self)
        ensures
            r.accept_vulnerabilities matches Some(v) && v@ == accept_vulnerabilities@,
            r == (Self { accept_vulnerabilities: r.accept_vulnerabilities, ..self }),
    {
        Self { accept_vulnerabilities: Some(accept_vulnerabilities.to_owned()), ..self }
    }

    pub fn q(self, q: &str) -> (r: Self)
        ensures
            r.q matches Some(v) && v@ == q@,
            r == (Self { q: r.q, ..self }),
    {
        Self { q: Some(q.to_owned()), ..self }
    }

    pub fn sort(self, sort: &str) -> (r: Self)
        ensures
            r.sort matches Some(v) && v@ == sort@,
            r == (Self { sort: r.sort, ..self }),
    {
        Self { sort: Some(sort.to_owned()), ..self }
    }

    pub fn page(self, page: i32) -> (r: Self)
        ensures
            r == (Self { page: Some(page), ..self }),
    {
        Self { page: Some(page), ..self }
    }

    pub fn page_size(self, page_size: i32) -> (r: Self)
        ensures
            r == (Self { page_size: Some(page_size), ..self }),
    {
        Self { page_size: Some(page_size), ..self }
    }

    pub fn with_tag(self, with_tag: bool) -> (r: Self)
        ensures
            r == (Self { with_tag: Some(with_tag), ..self }),
    {
        Self { with_tag: Some(with_tag), ..self }
    }

    pub fn with_label(self, with_label: bool) -> (r: Self)
        ensures
            r == (Self { with_label: Some(with_label), ..self }),
    {
        Self { with_label: Some(with_label), ..self }
    }

    pub fn with_scan_overview(self, with_scan_overview: bool) -> (r: Self)
        ensures
            r == (Self { with_scan_overview: Some(with_scan_overview), ..self }),
    {
        Self { with_scan_overview: Some(with_scan_overview), ..self }
    }

    pub fn with_sbom_overview(self, with_sbom_overview: bool) -> (r: Self)
        ensures
            r == (Self { with_sbom_overview: Some(with_sbom_overview), ..self }),
    {
        Self { with_sbom_overview: Some(with_sbom_overview), ..self }
    }

    pub fn with_immutable_status(self, with_immutable_status: bool) -> (r: Self)
        ensures
            r == (Self { with_immutable_status: Some(with_immutable_status), ..self }),
    {
        Self { with_immutable_status: Some(with_immutable_status), ..self }
    }

    pub fn with_accessory(self, with_accessory: bool) -> (r: Self)
        ensures
            r == (Self { with_accessory: Some(with_accessory), ..self }),
    {
        Self { with_accessory: Some(with_accessory), ..self }
    }

    pub fn latest_in_repository(self, latest_in_repository: bool) -> (r: Self)
        ensures
            r == (Self { latest_in_repository: Some(latest_in_repository), ..self }),
    {
        Self { latest_in_repository: Some(latest_in_repository), ..self }
    }

    /// Finalizes the builder; the project name is required.
    pub fn build(self) -> (r: Result<GetProjectArtifacts, BuildError>)
        ensures
            self.project_name_or_id matches Some(p) ==> r matches Ok(g) && g
                == (GetProjectArtifacts {
                request_id: self.request_id,
                is_resource_name: self.is_resource_name,
                accept_vulnerabilities: self.accept_vulnerabilities,
                project_name_or_id: p,
                q: self.q,
                sort: self.sort,
                page: self.page,
                page_size: self.page_size,
                with_tag: self.with_tag,
                with_label: self.with_label,
                with_scan_overview: self.with_scan_overview,
                with_sbom_overview: self.with_sbom_overview,
                with_immutable_status: self.with_immutable_status,
                with_accessory: self.with_accessory,
                latest_in_repository: self.latest_in_repository,
            }),
            self.project_name_or_id is None ==> r is Err,
    {
        match self.project_name_or_id {
            Some(p) => Ok(
                GetProjectArtifacts {
                    request_id: self.request_id,
                    is_resource_name: self.is_resource_name,
                    accept_vulnerabilities: self.accept_vulnerabilities,
                    project_name_or_id: p,
                    q: self.q,
                    sort: self.sort,
                    page: self.page,
                    page_size: self.page_size,
                    with_tag: self.with_tag,
                    with_label: self.with_label,
                    with_scan_overview: self.with_scan_overview,
                    with_sbom_overview: self.with_sbom_overview,
                    with_immutable_status: self.with_immutable_status,
                    with_accessory: self.with_accessory,
                    latest_in_repository: self.latest_in_repository,
                },
            ),
            None => Err(BuildError::MissingField(String::from_str("project_name_or_id"))),
        }
    }
}

/// This endpoint returns projects created by Harbor.
pub struct GetProjects {
    /// An unique ID for the request, sent as the `X-Request-Id` header.
    pub request_id: Option<String>,
    /// Query string to query resources.
    pub q: Option<String>,
    /// The page number.
    pub page: Option<i32>,
    /// The size of per page.
    pub page_size: Option<i32>,
    /// Sort the resource list in ascending or descending order.
    pub sort: Option<String>,
    /// The name of project.
    pub name: Option<String>,
    /// The project is public or private.
    pub public: Option<bool>,
    /// The name of project owner.
    pub owner: Option<String>,
    /// Whether to return detailed information of the project.
    pub with_detail: Option<bool>,
}

impl Default for GetProjects {
    /// The empty instance: every option absent.
    fn default() -> (r: GetProjects)
        ensures
            r.request_id is None,
            r.q is None,
            r.page is None,
            r.page_size is None,
            r.sort is None,
            r.name is None,
            r.public is None,
            r.owner is None,
            r.with_detail is None,
    {
        GetProjects {
            request_id: None,
            q: None,
            page: None,
            page_size: None,
            sort: None,
            name: None,
            public: None,
            owner: None,
            with_detail: None,
        }
    }
}

impl GetProjects {
    /// A builder with every option unset.
    pub fn builder() -> (r: GetProjectsBuilder)
        ensures
            r.request_id is None,
            r.q is None,
            r.page is None,
            r.page_size is None,
            r.sort is None,
            r.name is None,
            r.public is None,
            r.owner is None,
            r.with_detail is None,
    {
        GetProjectsBuilder {
            request_id: None,
            q: None,
            page: None,
            page_size: None,
            sort: None,
            name: None,
            public: None,
            owner: None,
            with_detail: None,
        }
    }

    fn bound_fields(&self) -> (r: Vec<BoundField>)
        ensures
            r.deep_view() == self.spec_fields(),
    {
        let mut v: Vec<BoundField> = Vec::new();
        v.push(
            BoundField::header_renamed(
                "request_id",
                "X-Request-Id",
                opt_string_clone(&self.request_id),
            ),
        );
        v.push(BoundField::optional("q", opt_string_clone(&self.q)));
        v.push(BoundField::optional("page", opt_i32_to_string(&self.page)));
        v.push(BoundField::optional("page_size", opt_i32_to_string(&self.page_size)));
        v.push(BoundField::optional("sort", opt_string_clone(&self.sort)));
        v.push(BoundField::optional("name", opt_string_clone(&self.name)));
        v.push(BoundField::optional("public", opt_bool_to_string(&self.public)));
        v.push(BoundField::optional("owner", opt_string_clone(&self.owner)));
        v.push(BoundField::optional("with_detail", opt_bool_to_string(&self.with_detail)));
        proof {
            assert(v.deep_view() =~= self.spec_fields());
        }
        v
    }
}

impl HarborRequest for GetProjects {
    open spec fn spec_template(&self) -> Seq<char> {
        "projects"@
    }

    open spec fn spec_fields(&self) -> Seq<BoundFieldView> {
        seq![
            bound(
                meta_header_renamed("request_id"@, "X-Request-Id"@),
                self.request_id.deep_view(),
            ),
            bound(meta_plain("q"@), self.q.deep_view()),
            bound(meta_plain("page"@), opt_i32_str(self.page)),
            bound(meta_plain("page_size"@), opt_i32_str(self.page_size)),
            bound(meta_plain("sort"@), self.sort.deep_view()),
            bound(meta_plain("name"@), self.name.deep_view()),
            bound(meta_plain("public"@), opt_bool_str(self.public)),
            bound(meta_plain("owner"@), self.owner.deep_view()),
            bound(meta_plain("with_detail"@), opt_bool_str(self.with_detail)),
        ]
    }

    proof fn wf(&self) {
        lemma_tpl_projects();
        lemma_wf_no_placeholder(self.spec_template(), self.spec_fields());
    }

    fn to_url(&self) -> (r: String) {
        proof {
            self.wf();
        }
        let fields = self.bound_fields();
        match render_url("projects", &fields) {
            Ok(u) => u,
            Err(_) => unreached(),
        }
    }

    fn headers(&self) -> (r: Result<Vec<(String, String)>, RenderError>) {
        let fields = self.bound_fields();
        render_headers(&fields)
    }
}

/// Accumulates the fields of a version 2 `GetProjects` request.
pub struct GetProjectsBuilder {
    pub request_id: Option<String>,
    pub q: Option<String>,
    pub page: Option<i32>,
    pub page_size: Option<i32>,
    pub sort: Option<String>,
    pub name: Option<String>,
    pub public: Option<bool>,
    pub owner: Option<String>,
    pub with_detail: Option<bool>,
}

impl GetProjectsBuilder {
    pub fn request_id(self, request_id: &str) -> (r: Self)
        ensures
            r.request_id matches Some(v) && v@ == request_id@,
            r == (Self { request_id: r.request_id, ..self }),
    {
        Self { request_id: Some(request_id.to_owned()), ..self }
    }

    pub fn q(self, q: &str) -> (r: Self)
        ensures
            r.q matches Some(v) && v@ == q@,
            r == (Self { q: r.q, ..self }),
    {
        Self { q: Some(q.to_owned()), ..self }
    }

    pub fn page(self, page: i32) -> (r: Self)
        ensures
            r == (Self { page: Some(page), ..self }),
    {
        Self { page: Some(page), ..self }
    }

    pub fn page_size(self, page_size: i32) -> (r: Self)
        ensures
            r == (Self { page_size: Some(page_size), ..self }),
    {
        Self { page_size: Some(page_size), ..self }
    }

    pub fn sort(self, sort: &str) -> (r: Self)
        ensures
            r.sort matches Some(v) && v@ == sort@,
            r == (Self { sort: r.sort, ..self }),
    {
        Self { sort: Some(sort.to_owned()), ..self }
    }

    pub fn name(self, name: &str) -> (r: Self)
        ensures
            r.name matches Some(v) && v@ == name@,
            r == (Self { name: r.name, ..self }),
    {
        Self { name: Some(name.to_owned()), ..self }
    }

    pub fn public(self, public: bool) -> (r: Self)
        ensures
            r == (Self { public: Some(public), ..self }),
    {
        Self { public: Some(public), ..self }
    }

    pub fn owner(self, owner: &str) -> (r: Self)
        ensures
            r.owner matches Some(v) && v@ == owner@,
            r == (Self { owner: r.owner, ..self }),
    {
        Self { owner: Some(owner.to_owned()), ..self }
    }

    pub fn with_detail(self, with_detail: bool) -> (r: Self)
        ensures
            r == (Self { with_detail: Some(with_detail), ..self }),
    {
        Self { with_detail: Some(with_detail), ..self }
    }

    /// Finalizes the builder; no field is required.
    pub fn build(self) -> (r: Result<GetProjects, BuildError>)
        ensures
            r matches Ok(g) && g == (GetProjects {
                request_id: self.request_id,
                q: self.q,
                page: self.page,
                page_size: self.page_size,
                sort: self.sort,
                name: self.name,
                public: self.public,
                owner: self.owner,
                with_detail: self.with_detail,
            }),
    {
        Ok(
            GetProjects {
                request_id: self.request_id,
                q: self.q,
                page: self.page,
                page_size: self.page_size,
                sort: self.sort,
                name: self.name,
                public: self.public,
                owner: self.owner,
                with_detail: self.with_detail,
            },
        )
    }
}

} // verus!
