//! Field descriptors and their roles. Every field of an endpoint
//! definition is classified, from its metadata alone, as exactly one of a
//! path placeholder, a header, or a query parameter.

use vstd::prelude::*;
use crate::errors::DefinitionError;
use crate::template::{placeholder_names, spec_placeholders, extract_placeholders};
use crate::text::{hyphenate, spec_hyphenate};

verus! {

/// The mathematical view of a field's metadata.
pub struct FieldMetaView {
    pub name: Seq<char>,
    pub header: bool,
    pub header_rename: Option<Seq<char>>,
    pub query_rename: Option<Seq<char>>,
}

/// The metadata of one field of an endpoint definition: its identifier,
/// whether it carries an explicit header marker, the header wire-name
/// override, and the serialization (query) rename.
pub struct FieldMeta {
    pub name: String,
    pub header: bool,
    pub header_rename: Option<String>,
    pub query_rename: Option<String>,
}

impl View for FieldMeta {
    type V = FieldMetaView;

    open spec fn view(&self) -> FieldMetaView {
        FieldMetaView {
            name: self.name@,
            header: self.header,
            header_rename: self.header_rename.deep_view(),
            query_rename: self.query_rename.deep_view(),
        }
    }
}

impl DeepView for FieldMeta {
    type V = FieldMetaView;

    open spec fn deep_view(&self) -> FieldMetaView {
        self@
    }
}

/// The mathematical view of a field with its bound value.
pub struct BoundFieldView {
    pub meta: FieldMetaView,
    pub value: Option<Seq<char>>,
}

/// One field of an endpoint instance: its metadata together with the
/// string form of its bound value; `None` is an optional field left absent.
pub struct BoundField {
    pub meta: FieldMeta,
    pub value: Option<String>,
}

impl View for BoundField {
    type V = BoundFieldView;

    open spec fn view(&self) -> BoundFieldView {
        BoundFieldView { meta: self.meta@, value: self.value.deep_view() }
    }
}

impl DeepView for BoundField {
    type V = BoundFieldView;

    open spec fn deep_view(&self) -> BoundFieldView {
        self@
    }
}

/// Metadata of a plain field: no header marker, no renames.
pub open spec fn meta_plain(name: Seq<char>) -> FieldMetaView {
    FieldMetaView { name, header: false, header_rename: None, query_rename: None }
}

/// Metadata of a field with a serialization rename.
pub open spec fn meta_renamed(name: Seq<char>, rename: Seq<char>) -> FieldMetaView {
    FieldMetaView { name, header: false, header_rename: None, query_rename: Some(rename) }
}

/// Metadata of a field marked as a header, without a wire-name override.
pub open spec fn meta_header(name: Seq<char>) -> FieldMetaView {
    FieldMetaView { name, header: true, header_rename: None, query_rename: None }
}

/// Metadata of a field marked as a header with a wire-name override.
pub open spec fn meta_header_renamed(name: Seq<char>, rename: Seq<char>) -> FieldMetaView {
    FieldMetaView { name, header: true, header_rename: Some(rename), query_rename: None }
}

/// A bound field from a meta view and a value view.
pub open spec fn bound(meta: FieldMetaView, value: Option<Seq<char>>) -> BoundFieldView {
    BoundFieldView { meta, value }
}

impl BoundField {
    /// A plain field carrying a value.
    pub fn required(name: &str, value: String) -> (r: BoundField)
        ensures
            r@ == bound(meta_plain(name@), Some(value@)),
    {
        BoundField {
            meta: FieldMeta {
                name: name.to_owned(),
                header: false,
                header_rename: None,
                query_rename: None,
            },
            value: Some(value),
        }
    }

    /// A plain field whose value may be absent.
    pub fn optional(name: &str, value: Option<String>) -> (r: BoundField)
        ensures
            r@ == bound(meta_plain(name@), value.deep_view()),
    {
        BoundField {
            meta: FieldMeta {
                name: name.to_owned(),
                header: false,
                header_rename: None,
                query_rename: None,
            },
            value,
        }
    }

    /// A field with a serialization rename whose value may be absent.
    pub fn renamed(name: &str, rename: &str, value: Option<String>) -> (r: BoundField)
        ensures
            r@ == bound(meta_renamed(name@, rename@), value.deep_view()),
    {
        BoundField {
            meta: FieldMeta {
                name: name.to_owned(),
                header: false,
                header_rename: None,
                query_rename: Some(rename.to_owned()),
            },
            value,
        }
    }

    /// A field marked as a header, without a wire-name override.
    pub fn header(name: &str, value: Option<String>) -> (r: BoundField)
        ensures
            r@ == bound(meta_header(name@), value.deep_view()),
    {
        BoundField {
            meta: FieldMeta {
                name: name.to_owned(),
                header: true,
                header_rename: None,
                query_rename: None,
            },
            value,
        }
    }

    /// A field marked as a header with a wire-name override.
    pub fn header_renamed(name: &str, rename: &str, value: Option<String>) -> (r: BoundField)
        ensures
            r@ == bound(meta_header_renamed(name@, rename@), value.deep_view()),
    {
        BoundField {
            meta: FieldMeta {
                name: name.to_owned(),
                header: true,
                header_rename: Some(rename.to_owned()),
                query_rename: None,
            },
            value,
        }
    }
}

/// The view of a field's computed role.
pub enum RoleView {
    PathPlaceholder,
    Header(Seq<char>),
    Query(Seq<char>),
}

/// The role of a field, computed once from its metadata: a path
/// placeholder, a header with its wire name, or a query parameter with
/// its wire name.
#[derive(Debug, Clone, PartialEq, Eq)]
pub enum FieldRole {
    PathPlaceholder,
    Header(String),
    Query(String),
}

impl View for FieldRole {
    type V = RoleView;

    open spec fn view(&self) -> RoleView {
        match self {
            FieldRole::PathPlaceholder => RoleView::PathPlaceholder,
            FieldRole::Header(w) => RoleView::Header(w@),
            FieldRole::Query(w) => RoleView::Query(w@),
        }
    }
}

/// The wire name of a header field: the explicit override when given,
/// else the identifier with underscores as hyphens.
pub open spec fn spec_header_wire(m: FieldMetaView) -> Seq<char> {
    match m.header_rename {
        Some(r) => r,
        None => spec_hyphenate(m.name),
    }
}

/// The wire name of a query field: the serialization rename when given,
/// else the identifier itself.
pub open spec fn spec_query_wire(m: FieldMetaView) -> Seq<char> {
    match m.query_rename {
        Some(r) => r,
        None => m.name,
    }
}

/// The role of a field, by priority: an explicit header marker wins over
/// a name that matches a placeholder, which wins over the query fallback.
pub open spec fn spec_role(m: FieldMetaView, ph: Set<Seq<char>>) -> RoleView {
    if m.header {
        RoleView::Header(spec_header_wire(m))
    } else if ph.contains(m.name) {
        RoleView::PathPlaceholder
    } else {
        RoleView::Query(spec_query_wire(m))
    }
}

/// Whether `name` occurs in `names`.
pub fn contains_name(names: &Vec<String>, name: &String) -> (r: bool)
    ensures
        r == names.deep_view().to_set().contains(name@),
{
    let n = names.len();
    let mut i: usize = 0;
    while i < n
        invariant
            n == names@.len(),
            i <= n,
            forall|j: int| 0 <= j < i ==> names.deep_view()[j] != name@,
        decreases n - i,
    {
        if names[i].eq(name) {
            assert(names.deep_view()[i as int] == name@);
            return true;
        }
        i = i + 1;
    }
    false
}

/// Assigns `meta` its role, given the placeholder names of the template.
pub fn classify(meta: &FieldMeta, placeholders: &Vec<String>) -> (r: FieldRole)
    ensures
        r@ == spec_role(meta@, placeholders.deep_view().to_set()),
{
    if meta.header {
        match &meta.header_rename {
            Some(r) => FieldRole::Header(r.clone()),
            None => FieldRole::Header(hyphenate(meta.name.as_str())),
        }
    } else if contains_name(placeholders, &meta.name) {
        FieldRole::PathPlaceholder
    } else {
        match &meta.query_rename {
            Some(r) => FieldRole::Query(r.clone()),
            None => FieldRole::Query(meta.name.clone()),
        }
    }
}

/// Whether `f` can satisfy the placeholder `n`: it is named `n` and does
/// not carry a header marker (a header marker always wins, so such a
/// field never fills a placeholder).
pub open spec fn is_path_field(f: BoundFieldView, n: Seq<char>) -> bool {
    !f.meta.header && f.meta.name == n
}

/// How many fields can satisfy the placeholder `n`.
pub open spec fn count_path_fields(fields: Seq<BoundFieldView>, n: Seq<char>) -> nat
    decreases fields.len(),
{
    if fields.len() == 0 {
        0
    } else {
        (if is_path_field(fields[0], n) {
            1nat
        } else {
            0nat
        }) + count_path_fields(fields.drop_first(), n)
    }
}

/// The index of the first field that can satisfy the placeholder `n`.
pub open spec fn find_path_field(fields: Seq<BoundFieldView>, n: Seq<char>) -> Option<int>
    decreases fields.len(),
{
    if fields.len() == 0 {
        None
    } else if is_path_field(fields[0], n) {
        Some(0int)
    } else {
        match find_path_field(fields.drop_first(), n) {
            Some(i) => Some(i + 1),
            None => None,
        }
    }
}

/// A definition is well formed when every placeholder of its template is
/// matched by exactly one path-role field.
pub open spec fn spec_wf_definition(tpl: Seq<char>, fields: Seq<BoundFieldView>) -> bool {
    forall|n: Seq<char>|
        #[trigger] placeholder_names(tpl).contains(n) ==> count_path_fields(fields, n) == 1
}

/// Counting over a sequence extended by one element on the right.
pub proof fn lemma_count_path_push(fields: Seq<BoundFieldView>, f: BoundFieldView, n: Seq<char>)
    ensures
        count_path_fields(fields.push(f), n) == count_path_fields(fields, n) + (
        if is_path_field(f, n) {
            1nat
        } else {
            0nat
        }),
    decreases fields.len(),
{
    let ext = fields.push(f);
    assert(ext.len() == fields.len() + 1);
    if fields.len() == 0 {
        assert(ext.drop_first() =~= Seq::<BoundFieldView>::empty());
        assert(ext[0] == f);
        assert(count_path_fields(ext.drop_first(), n) == 0);
    } else {
        assert(ext[0] == fields[0]);
        assert(ext.drop_first() =~= fields.drop_first().push(f));
        lemma_count_path_push(fields.drop_first(), f, n);
        assert(count_path_fields(ext.drop_first(), n) == count_path_fields(
            fields.drop_first(),
            n,
        ) + (if is_path_field(f, n) {
            1nat
        } else {
            0nat
        }));
        assert(count_path_fields(ext, n) == (if is_path_field(ext[0], n) {
            1nat
        } else {
            0nat
        }) + count_path_fields(ext.drop_first(), n));
    }
}

/// What the first found index means, and that a positive count finds one.
pub proof fn lemma_find_path_field(fields: Seq<BoundFieldView>, n: Seq<char>)
    ensures
        count_path_fields(fields, n) >= 1 <==> find_path_field(fields, n) is Some,
        find_path_field(fields, n) matches Some(i) ==> 0 <= i < fields.len() && is_path_field(
            fields[i],
            n,
        ) && (forall|j: int| 0 <= j < i ==> !is_path_field(#[trigger] fields[j], n)),
    decreases fields.len(),
{
    if fields.len() > 0 {
        lemma_find_path_field(fields.drop_first(), n);
        assert(forall|j: int|
            0 <= j < fields.len() - 1 ==> fields.drop_first()[j] == #[trigger] fields[j + 1]);
        if !is_path_field(fields[0], n) {
            if let Some(i) = find_path_field(fields.drop_first(), n) {
                assert forall|j: int| 0 <= j < i + 1 implies !is_path_field(
                    #[trigger] fields[j],
                    n,
                ) by {
                    if j > 0 {
                        assert(!is_path_field(fields.drop_first()[j - 1], n));
                    }
                };
            }
        }
    }
}

/// A single satisfying index makes the count exactly one.
pub proof fn lemma_count_path_unique(fields: Seq<BoundFieldView>, n: Seq<char>, i: int)
    requires
        0 <= i < fields.len(),
        is_path_field(fields[i], n),
        forall|j: int|
            0 <= j < fields.len() && j != i ==> !is_path_field(#[trigger] fields[j], n),
    ensures
        count_path_fields(fields, n) == 1,
    decreases fields.len(),
{
    assert(forall|j: int|
        0 <= j < fields.len() - 1 ==> #[trigger] fields.drop_first()[j] == fields[j + 1]);
    if i == 0 {
        lemma_find_path_none(fields.drop_first(), n);
    } else {
        lemma_count_path_unique(fields.drop_first(), n, i - 1);
    }
}

/// A first satisfying index pins down `find_path_field`.
pub proof fn lemma_find_path_at(fields: Seq<BoundFieldView>, n: Seq<char>, i: int)
    requires
        0 <= i < fields.len(),
        is_path_field(fields[i], n),
        forall|j: int| 0 <= j < i ==> !is_path_field(#[trigger] fields[j], n),
    ensures
        find_path_field(fields, n) == Some(i),
    decreases fields.len(),
{
    assert(forall|j: int|
        0 <= j < fields.len() - 1 ==> #[trigger] fields.drop_first()[j] == fields[j + 1]);
    if i > 0 {
        lemma_find_path_at(fields.drop_first(), n, i - 1);
    }
}

/// No satisfying index anywhere means `find_path_field` finds nothing.
pub proof fn lemma_find_path_none(fields: Seq<BoundFieldView>, n: Seq<char>)
    requires
        forall|j: int| 0 <= j < fields.len() ==> !is_path_field(#[trigger] fields[j], n),
    ensures
        find_path_field(fields, n) is None,
        count_path_fields(fields, n) == 0,
    decreases fields.len(),
{
    assert(forall|j: int|
        0 <= j < fields.len() - 1 ==> #[trigger] fields.drop_first()[j] == fields[j + 1]);
    if fields.len() > 0 {
        lemma_find_path_none(fields.drop_first(), n);
    }
}

/// The first field that can satisfy the placeholder `n`, as executable
/// search.
pub fn find_field(fields: &Vec<BoundField>, name: &String) -> (r: Option<usize>)
    ensures
        match r {
            Some(i) => find_path_field(fields.deep_view(), name@) == Some(i as int),
            None => find_path_field(fields.deep_view(), name@) is None,
        },
{
    let n = fields.len();
    let mut i: usize = 0;
    while i < n
        invariant
            n == fields@.len(),
            i <= n,
            forall|j: int|
                0 <= j < i ==> !is_path_field(#[trigger] fields.deep_view()[j], name@),
        decreases n - i,
    {
        let f = &fields[i];
        if !f.meta.header && f.meta.name.eq(name) {
            proof {
                assert(is_path_field(fields.deep_view()[i as int], name@));
                lemma_find_path_at(fields.deep_view(), name@, i as int);
            }
            return Some(i);
        }
        i = i + 1;
    }
    proof {
        lemma_find_path_none(fields.deep_view(), name@);
    }
    None
}

/// Checks that a definition is well formed: every placeholder of the
/// template is matched by exactly one path-role field. A placeholder
/// matched by none is unresolvable; one matched by several is ambiguous.
pub fn check_definition(template: &str, fields: &Vec<BoundField>) -> (r: Result<
    (),
    DefinitionError,
>)
    ensures
        r is Ok <==> spec_wf_definition(template@, fields.deep_view()),
        r matches Err(DefinitionError::UnresolvedPlaceholder(n)) ==> placeholder_names(
            template@,
        ).contains(n@) && count_path_fields(fields.deep_view(), n@) == 0,
        r matches Err(DefinitionError::AmbiguousPlaceholder(n)) ==> placeholder_names(
            template@,
        ).contains(n@) && count_path_fields(fields.deep_view(), n@) >= 2,
{
    let phs = extract_placeholders(template);
    let np = phs.len();
    let nf = fields.len();
    let mut pi: usize = 0;
    while pi < np
        invariant
            np == phs@.len(),
            nf == fields@.len(),
            pi <= np,
            phs.deep_view() == spec_placeholders(template@),
            forall|t: int|
                0 <= t < pi ==> count_path_fields(
                    fields.deep_view(),
                    #[trigger] phs.deep_view()[t],
                ) == 1,
        decreases np - pi,
    {
        let name = &phs[pi];
        let mut cnt: usize = 0;
        let mut fi: usize = 0;
        while fi < nf
            invariant
                nf == fields@.len(),
                fi <= nf,
                cnt <= fi,
                name@ == phs.deep_view()[pi as int],
                pi < np == phs@.len(),
                cnt == count_path_fields(fields.deep_view().take(fi as int), name@),
            decreases nf - fi,
        {
            let ghost prefix = fields.deep_view().take(fi as int);
            let f = &fields[fi];
            let hit = !f.meta.header && f.meta.name.eq(name);
            proof {
                lemma_count_path_push(prefix, fields.deep_view()[fi as int], name@);
                assert(fields.deep_view().take(fi + 1) =~= prefix.push(
                    fields.deep_view()[fi as int],
                ));
            }
            if hit {
                cnt = cnt + 1;
            }
            fi = fi + 1;
        }
        proof {
            assert(fields.deep_view().take(nf as int) =~= fields.deep_view());
        }
        if cnt == 0 {
            proof {
                assert(spec_placeholders(template@).contains(name@));
                assert(placeholder_names(template@).contains(name@));
            }
            return Err(DefinitionError::UnresolvedPlaceholder(name.clone()));
        }
        if cnt > 1 {
            proof {
                assert(spec_placeholders(template@).contains(name@));
                assert(placeholder_names(template@).contains(name@));
            }
            return Err(DefinitionError::AmbiguousPlaceholder(name.clone()));
        }
        pi = pi + 1;
    }
    proof {
        assert forall|n: Seq<char>| placeholder_names(template@).contains(n) implies count_path_fields(
            fields.deep_view(),
            n,
        ) == 1 by {
            let t = choose|t: int|
                0 <= t < spec_placeholders(template@).len() && spec_placeholders(template@)[t]
                    == n;
            assert(phs.deep_view()[t] == n);
        };
    }
    Ok(())
}

} // verus!
