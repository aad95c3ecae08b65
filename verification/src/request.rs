//! The request capability: the contract every endpoint-description type
//! satisfies so that the dispatcher can render and send it.

use vstd::prelude::*;
use crate::errors::RenderError;
use crate::fields::{
    BoundFieldView, is_path_field, lemma_count_path_unique, lemma_find_path_at,
    spec_wf_definition,
};
use crate::headers::{HeaderFaultView, first_header_fault, spec_header_entries};
use crate::encode::{all_plain, plain_joined};
use crate::render::{
    first_missing_in, first_missing_path, placeholder_filled, spec_path_part, spec_url,
    spec_url_pairs,
};
use crate::template::{placeholder_names, spec_placeholders};

pub mod project;
pub mod v2;

verus! {

/// An endpoint description that can be dispatched: its template and
/// fields are known mathematically, its definition is well formed, and
/// its URL and headers are rendered exactly from them.
pub trait HarborRequest {
    /// The endpoint's path template.
    spec fn spec_template(&self) -> Seq<char>;

    /// The instance's fields, in definition order.
    spec fn spec_fields(&self) -> Seq<BoundFieldView>;

    /// Every implementor's definition is well formed — each template
    /// placeholder is resolved by exactly one path-role field — and no
    /// placeholder is left without a value. A definition that violates
    /// this cannot implement the trait: it fails at verification time.
    proof fn wf(&self)
        ensures
            spec_wf_definition(self.spec_template(), self.spec_fields()),
            first_missing_path(self.spec_template(), self.spec_fields()) is None,
    ;

    /// The request path and query of this instance. When no query pair
    /// is present the path stands alone; when every pair is made of
    /// plain characters the query is the pairs joined as written.
    fn to_url(&self) -> (r: String)
        ensures
            r@ == spec_url(self.spec_template(), self.spec_fields()),
            spec_url_pairs(self.spec_template(), self.spec_fields()).len() == 0 ==> r@
                == spec_path_part(self.spec_template(), self.spec_fields()),
            all_plain(spec_url_pairs(self.spec_template(), self.spec_fields()))
                && spec_url_pairs(self.spec_template(), self.spec_fields()).len() > 0 ==> r@
                == spec_path_part(self.spec_template(), self.spec_fields()) + seq!['?']
                + plain_joined(spec_url_pairs(self.spec_template(), self.spec_fields())),
    ;

    /// The request headers of this instance, or the first field whose
    /// wire name or value is not valid header bytes.
    fn headers(&self) -> (r: Result<Vec<(String, String)>, RenderError>)
        ensures
            match r {
                Ok(hs) => first_header_fault(self.spec_fields()) is None && hs.deep_view()
                    == spec_header_entries(self.spec_fields()),
                Err(e) => match first_header_fault(self.spec_fields()) {
                    Some(HeaderFaultView::BadName(f)) => e matches RenderError::InvalidHeaderName(
                        s,
                    ) && s@ == f,
                    Some(HeaderFaultView::BadValue(f)) => e
                        matches RenderError::InvalidHeaderValue(s) && s@ == f,
                    None => false,
                },
            },
    ;
}

/// Well-formedness of a definition whose template has no placeholder.
pub proof fn lemma_wf_no_placeholder(tpl: Seq<char>, fields: Seq<BoundFieldView>)
    requires
        spec_placeholders(tpl) == Seq::<Seq<char>>::empty(),
    ensures
        spec_wf_definition(tpl, fields),
        first_missing_path(tpl, fields) is None,
{
    assert(forall|n: Seq<char>| !placeholder_names(tpl).contains(n));
}

/// Well-formedness of a definition whose template has one placeholder,
/// resolved by the field at index `i`, which carries a value.
pub proof fn lemma_wf_one_placeholder(
    tpl: Seq<char>,
    fields: Seq<BoundFieldView>,
    name: Seq<char>,
    i: int,
)
    requires
        spec_placeholders(tpl) == seq![name],
        0 <= i < fields.len(),
        is_path_field(fields[i], name),
        fields[i].value is Some,
        forall|j: int|
            0 <= j < fields.len() && j != i ==> !is_path_field(#[trigger] fields[j], name),
    ensures
        spec_wf_definition(tpl, fields),
        first_missing_path(tpl, fields) is None,
{
    lemma_count_path_unique(fields, name, i);
    assert forall|n: Seq<char>| placeholder_names(tpl).contains(n) implies n == name by {
        let t = choose|t: int|
            0 <= t < spec_placeholders(tpl).len() && spec_placeholders(tpl)[t] == n;
        assert(spec_placeholders(tpl)[t] == name);
    };
    lemma_find_path_at(fields, name, i);
    assert(placeholder_filled(fields, name));
    assert(seq![name].drop_first() =~= Seq::<Seq<char>>::empty());
    assert(first_missing_in(seq![name].drop_first(), fields) is None);
    assert(seq![name][0] == name);
    assert(first_missing_in(seq![name], fields) is None);
}

} // verus!
