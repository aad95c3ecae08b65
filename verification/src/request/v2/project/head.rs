//! Existence check for a project, carried entirely in headers.

use vstd::prelude::*;
use vstd::pervasive::unreached;
use crate::errors::{BuildError, RenderError};
use crate::fields::{BoundField, BoundFieldView, bound, meta_header};
use crate::headers::render_headers;
use crate::render::render_url;
use crate::request::{HarborRequest, lemma_wf_no_placeholder};
use crate::request::project::get::lemma_tpl_projects;
use crate::text::opt_string_clone;

verus! {

/// Check whether a project with the given name exists.
pub struct HeadProjects {
    /// An unique ID for the request, sent as the `id` header.
    pub id: Option<String>,
    /// Project name for checking exists, sent as the `project-name`
    /// header.
    pub project_name: String,
}

impl HeadProjects {
    /// A builder holding the project name, the request id unset.
    pub fn builder(project_name: &str) -> (r: HeadProjectsBuilder)
        ensures
            r.project_name.deep_view() == Some(project_name@),
            r.id is None,
    {
        HeadProjectsBuilder { id: None, project_name: Some(project_name.to_owned()) }
    }

    fn bound_fields(&self) -> (r: Vec<BoundField>)
        ensures
            r.deep_view() == self.spec_fields(),
    {
        let mut v: Vec<BoundField> = Vec::new();
        v.push(BoundField::header("id", opt_string_clone(&self.id)));
        v.push(BoundField::header("project_name", Some(self.project_name.clone())));
        proof {
            assert(v.deep_view() =~= self.spec_fields());
        }
        v
    }
}

impl HarborRequest for HeadProjects {
    open spec fn spec_template(&self) -> Seq<char> {
        "projects"@
    }

    open spec fn spec_fields(&self) -> Seq<BoundFieldView> {
        seq![
            bound(meta_header("id"@), self.id.deep_view()),
            bound(meta_header("project_name"@), Some(self.project_name@)),
        ]
    }

    proof fn wf(&self) {
        lemma_tpl_projects();
        lemma_wf_no_placeholder(self.spec_template(), self.spec_fields());
    }

    fn to_url(&self) -> (r: String) {
        proof {
            self.wf();
        }
        let fields = self.bound_fields();
        match render_url("projects", &fields) {
            Ok(u) => u,
            Err(_) => unreached(),
        }
    }

    fn headers(&self) -> (r: Result<Vec<(String, String)>, RenderError>) {
        let fields = self.bound_fields();
        render_headers(&fields)
    }
}

/// Accumulates the fields of a `HeadProjects` request.
pub struct HeadProjectsBuilder {
    pub id: Option<String>,
    pub project_name: Option<String>,
}

impl HeadProjectsBuilder {
    pub fn id(self, id: &str) -> (r: Self)
        ensures
            r.id matches Some(v) && v@ == id@,
            r == (Self { id: r.id, ..self }),
    {
        Self { id: Some(id.to_owned()), ..self }
    }

    /// Finalizes the builder; the project name is required.
    pub fn build(self) -> (r: Result<HeadProjects, BuildError>)
        ensures
            self.project_name matches Some(p) ==> r matches Ok(g) && g == (HeadProjects {
                id: self.id,
                project_name: p,
            }),
            self.project_name is None ==> r is Err,
    {
        match self.project_name {
            Some(p) => Ok(HeadProjects { id: self.id, project_name: p }),
            None => Err(BuildError::MissingField(String::from_str("project_name"))),
        }
    }
}

} // verus!
