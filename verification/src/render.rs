//! URL rendering: substitutes the path placeholders of a template from
//! the instance's path-role fields, collects the query-role fields in
//! field order, form-encodes them, and joins path and query.

use vstd::prelude::*;
use vstd::pervasive::unreached;
use crate::encode::{all_plain, form_encoded_of, plain_joined, urlencode_pairs};
use crate::errors::RenderError;
use crate::fields::{
    BoundField, BoundFieldView, RoleView, count_path_fields, find_field, find_path_field,
    lemma_find_path_field, spec_query_wire, spec_role, spec_wf_definition,
};
use crate::template::{
    extract_placeholders, placeholder_names, placeholders_from, spec_placeholders, spec_subst,
    subst_from, token_at, token_name, token_scan,
};

verus! {

/// The substitution map of an instance: every placeholder name resolved
/// by a path-role field with a present value, bound to that value.
pub open spec fn spec_path_map(tpl: Seq<char>, fields: Seq<BoundFieldView>) -> Map<
    Seq<char>,
    Seq<char>,
> {
    Map::new(
        |n: Seq<char>|
            placeholder_names(tpl).contains(n) && (match find_path_field(fields, n) {
                Some(i) => fields[i].value is Some,
                None => false,
            }),
        |n: Seq<char>| fields[find_path_field(fields, n).unwrap()].value.unwrap(),
    )
}

/// Whether the placeholder `n` is resolved by a field carrying a value.
pub open spec fn placeholder_filled(fields: Seq<BoundFieldView>, n: Seq<char>) -> bool {
    match find_path_field(fields, n) {
        Some(i) => fields[i].value is Some,
        None => false,
    }
}

/// The first name in `phs` that no field fills.
pub open spec fn first_missing_in(phs: Seq<Seq<char>>, fields: Seq<BoundFieldView>) -> Option<
    Seq<char>,
>
    decreases phs.len(),
{
    if phs.len() == 0 {
        None
    } else if !placeholder_filled(fields, phs[0]) {
        Some(phs[0])
    } else {
        first_missing_in(phs.drop_first(), fields)
    }
}

/// The first placeholder of the template that the instance leaves open.
pub open spec fn first_missing_path(tpl: Seq<char>, fields: Seq<BoundFieldView>) -> Option<
    Seq<char>,
> {
    first_missing_in(spec_placeholders(tpl), fields)
}

/// What one field contributes to the query pairs: its wire name and
/// value when it has query role and a present value, nothing otherwise.
pub open spec fn query_contrib(f: BoundFieldView, ph: Set<Seq<char>>) -> Seq<
    (Seq<char>, Seq<char>),
> {
    match (spec_role(f.meta, ph), f.value) {
        (RoleView::Query(w), Some(v)) => seq![(w, v)],
        _ => Seq::empty(),
    }
}

/// The query pairs of an instance, in field order: every query-role
/// field with a present value contributes exactly one pair.
pub open spec fn spec_query_pairs(fields: Seq<BoundFieldView>, ph: Set<Seq<char>>) -> Seq<
    (Seq<char>, Seq<char>),
>
    decreases fields.len(),
{
    if fields.len() == 0 {
        Seq::empty()
    } else {
        query_contrib(fields[0], ph) + spec_query_pairs(fields.drop_first(), ph)
    }
}

/// The substituted path of an instance.
pub open spec fn spec_path_part(tpl: Seq<char>, fields: Seq<BoundFieldView>) -> Seq<char> {
    spec_subst(tpl, spec_path_map(tpl, fields))
}

/// The query pairs of an instance under its own template.
pub open spec fn spec_url_pairs(tpl: Seq<char>, fields: Seq<BoundFieldView>) -> Seq<
    (Seq<char>, Seq<char>),
> {
    spec_query_pairs(fields, placeholder_names(tpl))
}

/// The rendered URL of an instance: the substituted path, and, when any
/// query pair exists to encode, `?` and the form-encoded pairs.
pub open spec fn spec_url(tpl: Seq<char>, fields: Seq<BoundFieldView>) -> Seq<char> {
    let path = spec_path_part(tpl, fields);
    let q = form_encoded_of(spec_url_pairs(tpl, fields));
    if q.len() == 0 {
        path
    } else {
        path + seq!['?'] + q
    }
}

/// Query pairs of a sequence extended by one field on the right.
pub proof fn lemma_query_pairs_push(
    fields: Seq<BoundFieldView>,
    f: BoundFieldView,
    ph: Set<Seq<char>>,
)
    ensures
        spec_query_pairs(fields.push(f), ph) == spec_query_pairs(fields, ph) + query_contrib(
            f,
            ph,
        ),
    decreases fields.len(),
{
    let ext = fields.push(f);
    if fields.len() == 0 {
        assert(ext.drop_first() =~= Seq::<BoundFieldView>::empty());
        assert(ext[0] == f);
        assert(spec_query_pairs(ext.drop_first(), ph) =~= Seq::<(Seq<char>, Seq<char>)>::empty());
        assert(spec_query_pairs(ext, ph) =~= query_contrib(f, ph));
        assert(spec_query_pairs(fields, ph) + query_contrib(f, ph) =~= query_contrib(f, ph));
    } else {
        assert(ext[0] == fields[0]);
        assert(ext.drop_first() =~= fields.drop_first().push(f));
        lemma_query_pairs_push(fields.drop_first(), f, ph);
        assert(spec_query_pairs(ext, ph) =~= spec_query_pairs(fields, ph) + query_contrib(f, ph));
    }
}

/// Renders the path and query of one instance. Every placeholder is
/// substituted with its field's value; a placeholder whose field carries
/// no value is the error, naming the first such placeholder. The query
/// string holds the query-role fields in field order, absent optional
/// fields contributing nothing; when it is empty the path stands alone.
pub fn render_url(template: &str, fields: &Vec<BoundField>) -> (r: Result<String, RenderError>)
    requires
        spec_wf_definition(template@, fields.deep_view()),
    ensures
        match r {
            Ok(u) => {
                &&& first_missing_path(template@, fields.deep_view()) is None
                &&& u@ == spec_url(template@, fields.deep_view())
                &&& spec_url_pairs(template@, fields.deep_view()).len() == 0 ==> u@
                    == spec_path_part(template@, fields.deep_view())
                &&& all_plain(spec_url_pairs(template@, fields.deep_view())) && spec_url_pairs(
                    template@,
                    fields.deep_view(),
                ).len() > 0 ==> u@ == spec_path_part(template@, fields.deep_view()) + seq!['?']
                    + plain_joined(spec_url_pairs(template@, fields.deep_view()))
            },
            Err(e) => {
                &&& first_missing_path(template@, fields.deep_view()) is Some
                &&& e matches RenderError::MissingPathParameter(s) && s@ == first_missing_path(
                    template@,
                    fields.deep_view(),
                ).unwrap()
            },
        },
{
    let ghost tplv = template@;
    let ghost fv = fields.deep_view();
    let ghost m = spec_path_map(tplv, fv);
    let n = template.unicode_len();
    let mut path = String::new();
    let mut i: usize = 0;
    let ghost mut seen: Seq<Seq<char>> = Seq::empty();
    while i < n
        invariant
            n == tplv.len(),
            tplv == template@,
            fv == fields.deep_view(),
            m == spec_path_map(tplv, fv),
            spec_wf_definition(tplv, fv),
            i <= n,
            path@ + subst_from(tplv, i as int, m) == spec_subst(tplv, m),
            first_missing_in(placeholders_from(tplv, i as int), fv) == first_missing_path(
                tplv,
                fv,
            ),
            spec_placeholders(tplv) == seen + placeholders_from(tplv, i as int),
        decreases n - i,
    {
        match token_scan(template, i, n) {
            Some(k) => {
                let name = template.substring_char(i + 1, i + k - 1).to_owned();
                proof {
                    assert(name@ == token_name(tplv, i as int));
                    assert(placeholders_from(tplv, i as int) == seq![name@] + placeholders_from(
                        tplv,
                        i + k,
                    ));
                    assert(spec_placeholders(tplv)[seen.len() as int] == name@);
                    assert(spec_placeholders(tplv).contains(name@));
                    assert(placeholder_names(tplv).contains(name@));
                    lemma_find_path_field(fv, name@);
                    assert(count_path_fields(fv, name@) == 1);
                }
                match find_field(fields, &name) {
                    Some(fi) => {
                        let present = match &fields[fi].value {
                            Some(_) => true,
                            None => false,
                        };
                        if !present {
                            proof {
                                assert(fv[fi as int].value is None);
                                assert(!placeholder_filled(fv, name@));
                                assert(first_missing_in(placeholders_from(tplv, i as int), fv)
                                    == Some(name@));
                            }
                            return Err(RenderError::MissingPathParameter(name));
                        }
                        let v = match &fields[fi].value {
                            Some(v) => v.clone(),
                            None => unreached(),
                        };
                        let ghost old_path = path@;
                        path.append(v.as_str());
                        proof {
                            assert(fv[fi as int].value == Some(v@));
                            assert(placeholder_filled(fv, name@));
                            assert(m.contains_key(name@));
                            assert(m[name@] == v@);
                            assert(subst_from(tplv, i as int, m) == m[name@] + subst_from(
                                tplv,
                                i + k,
                                m,
                            ));
                            assert(path@ + subst_from(tplv, i + k, m) =~= (old_path
                                + subst_from(tplv, i as int, m)));
                            seen = seen.push(name@);
                            assert(seen =~= (seen.drop_last()).push(name@));
                            assert(spec_placeholders(tplv) =~= seen + placeholders_from(
                                tplv,
                                i + k,
                            ));
                            assert(placeholders_from(tplv, i as int).drop_first()
                                =~= placeholders_from(tplv, i + k));
                        }
                        i = i + k;
                    },
                    None => {
                        proof {
                            assert(false);
                        }
                        return unreached();
                    },
                }
            },
            None => {
                let c = template.get_char(i);
                let ghost old_path = path@;
                path.push(c);
                proof {
                    assert(subst_from(tplv, i as int, m) == seq![tplv[i as int]] + subst_from(
                        tplv,
                        i + 1,
                        m,
                    ));
                    assert(path@ + subst_from(tplv, i + 1, m) =~= old_path + subst_from(
                        tplv,
                        i as int,
                        m,
                    ));
                    assert(placeholders_from(tplv, i as int) == placeholders_from(tplv, i + 1));
                }
                i = i + 1;
            },
        }
    }
    proof {
        assert(subst_from(tplv, n as int, m) =~= Seq::<char>::empty());
        assert(path@ =~= spec_subst(tplv, m));
        assert(placeholders_from(tplv, n as int) =~= Seq::<Seq<char>>::empty());
        assert(first_missing_path(tplv, fv) is None);
    }
    let phs = extract_placeholders(template);
    let nf = fields.len();
    let mut pairs: Vec<(String, String)> = Vec::new();
    let mut t: usize = 0;
    while t < nf
        invariant
            fv == fields.deep_view(),
            tplv == template@,
            nf == fields@.len(),
            t <= nf,
            phs.deep_view() == spec_placeholders(tplv),
            pairs.deep_view() == spec_query_pairs(fv.take(t as int), placeholder_names(tplv)),
        decreases nf - t,
    {
        let ghost pre = fv.take(t as int);
        proof {
            lemma_query_pairs_push(pre, fv[t as int], placeholder_names(tplv));
            assert(fv.take(t + 1) =~= pre.push(fv[t as int]));
        }
        let f = &fields[t];
        if !f.meta.header && !crate::fields::contains_name(&phs, &f.meta.name) {
            match &f.value {
                Some(v) => {
                    let wire = match &f.meta.query_rename {
                        Some(r) => r.clone(),
                        None => f.meta.name.clone(),
                    };
                    let ghost oldp = pairs.deep_view();
                    pairs.push((wire, v.clone()));
                    proof {
                        assert(spec_role(fv[t as int].meta, placeholder_names(tplv))
                            == RoleView::Query(spec_query_wire(fv[t as int].meta)));
                        assert(pairs.deep_view() =~= oldp.push(
                            (spec_query_wire(fv[t as int].meta), fv[t as int].value.unwrap()),
                        ));
                        assert(pairs.deep_view() =~= spec_query_pairs(
                            fv.take(t + 1),
                            placeholder_names(tplv),
                        ));
                    }
                },
                None => {},
            }
        }
        t = t + 1;
    }
    proof {
        assert(fv.take(nf as int) =~= fv);
    }
    let qs = urlencode_pairs(&pairs);
    proof {
        if spec_url_pairs(tplv, fv).len() > 0 {
            assert(plain_joined(spec_url_pairs(tplv, fv)).len() >= 1);
        }
    }
    if qs.as_str().unicode_len() == 0 {
        proof {
            assert(path@ == spec_url(tplv, fv));
        }
        Ok(path)
    } else {
        let mut url = path;
        url.append("?");
        url.append(qs.as_str());
        proof {
            reveal_strlit("?");
            assert("?"@ =~= seq!['?']);
            assert(url@ =~= spec_url(tplv, fv));
        }
        Ok(url)
    }
}

} // verus!
