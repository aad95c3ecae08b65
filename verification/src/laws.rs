//! The library's general laws, each proved once and for all instances:
//! exactness of the query pairs, order independence of path substitution,
//! idempotence of rendering, and precedence of the header marker.

use vstd::prelude::*;
use crate::fields::{
    BoundFieldView, RoleView, count_path_fields, is_path_field, lemma_find_path_none, spec_role,
    spec_query_wire, spec_wf_definition,
};
use crate::headers::spec_header_entries;
use crate::render::{query_contrib, spec_query_pairs, spec_url};
use crate::template::{
    placeholder_names, placeholders_from, spec_placeholders, spec_subst, subst_from, token_at,
    token_name,
};

verus! {

/// How many pairs carry the key `k`.
pub open spec fn count_key_pairs(pairs: Seq<(Seq<char>, Seq<char>)>, k: Seq<char>) -> nat
    decreases pairs.len(),
{
    if pairs.len() == 0 {
        0
    } else {
        (if pairs[0].0 == k {
            1nat
        } else {
            0nat
        }) + count_key_pairs(pairs.drop_first(), k)
    }
}

/// No two query-role fields share a wire name.
pub open spec fn distinct_query_wires(fields: Seq<BoundFieldView>, ph: Set<Seq<char>>) -> bool {
    forall|a: int, b: int|
        0 <= a < fields.len() && 0 <= b < fields.len() && a != b && spec_role(
            #[trigger] fields[a].meta,
            ph,
        ) is Query && spec_role(#[trigger] fields[b].meta, ph) is Query
            ==> spec_query_wire(fields[a].meta) != spec_query_wire(fields[b].meta)
}

/// Key counting distributes over concatenation.
proof fn lemma_count_key_concat(
    a: Seq<(Seq<char>, Seq<char>)>,
    b: Seq<(Seq<char>, Seq<char>)>,
    k: Seq<char>,
)
    ensures
        count_key_pairs(a + b, k) == count_key_pairs(a, k) + count_key_pairs(b, k),
    decreases a.len(),
{
    if a.len() == 0 {
        assert(a + b =~= b);
    } else {
        assert((a + b)[0] == a[0]);
        assert((a + b).drop_first() =~= a.drop_first() + b);
        lemma_count_key_concat(a.drop_first(), b, k);
    }
}

/// Key counting on what one field contributes.
proof fn lemma_count_contrib(f: BoundFieldView, ph: Set<Seq<char>>, k: Seq<char>)
    ensures
        count_key_pairs(query_contrib(f, ph), k) == (if spec_role(f.meta, ph) is Query
            && f.value is Some && spec_query_wire(f.meta) == k {
            1nat
        } else {
            0nat
        }),
{
    if spec_role(f.meta, ph) is Query && f.value is Some {
        let p = (spec_query_wire(f.meta), f.value.unwrap());
        assert(query_contrib(f, ph) =~= seq![p]);
        assert(seq![p].drop_first() =~= Seq::<(Seq<char>, Seq<char>)>::empty());
        assert(count_key_pairs(seq![p].drop_first(), k) == 0);
    } else {
        assert(query_contrib(f, ph) =~= Seq::<(Seq<char>, Seq<char>)>::empty());
    }
}

/// When no query-role field has wire name `k`, no pair carries `k`.
proof fn lemma_no_wire_no_pair(fields: Seq<BoundFieldView>, ph: Set<Seq<char>>, k: Seq<char>)
    requires
        forall|j: int|
            0 <= j < fields.len() && spec_role(#[trigger] fields[j].meta, ph) is Query
                ==> spec_query_wire(fields[j].meta) != k,
    ensures
        count_key_pairs(spec_query_pairs(fields, ph), k) == 0,
    decreases fields.len(),
{
    if fields.len() > 0 {
        assert(forall|j: int|
            0 <= j < fields.len() - 1 ==> #[trigger] fields.drop_first()[j] == fields[j + 1]);
        lemma_no_wire_no_pair(fields.drop_first(), ph, k);
        lemma_count_key_concat(
            query_contrib(fields[0], ph),
            spec_query_pairs(fields.drop_first(), ph),
            k,
        );
        lemma_count_contrib(fields[0], ph, k);
    }
}

/// Exactness of the query pairs: an absent optional field contributes no
/// pair under its wire name; a present one contributes exactly one pair,
/// carrying its value. (Wire names must be distinct, as field names are
/// unique within a definition.)
pub proof fn lemma_query_exactness(fields: Seq<BoundFieldView>, ph: Set<Seq<char>>, i: int)
    requires
        0 <= i < fields.len(),
        spec_role(fields[i].meta, ph) is Query,
        distinct_query_wires(fields, ph),
    ensures
        fields[i].value is None ==> count_key_pairs(
            spec_query_pairs(fields, ph),
            spec_query_wire(fields[i].meta),
        ) == 0,
        fields[i].value is Some ==> count_key_pairs(
            spec_query_pairs(fields, ph),
            spec_query_wire(fields[i].meta),
        ) == 1 && spec_query_pairs(fields, ph).contains(
            (spec_query_wire(fields[i].meta), fields[i].value.unwrap()),
        ),
    decreases fields.len(),
{
    let w = spec_query_wire(fields[i].meta);
    let rest = fields.drop_first();
    assert(forall|j: int| 0 <= j < fields.len() - 1 ==> #[trigger] rest[j] == fields[j + 1]);
    lemma_count_key_concat(query_contrib(fields[0], ph), spec_query_pairs(rest, ph), w);
    if i == 0 {
        assert(forall|j: int|
            0 <= j < rest.len() && spec_role(#[trigger] rest[j].meta, ph) is Query
                ==> spec_query_wire(rest[j].meta) != w);
        lemma_no_wire_no_pair(rest, ph, w);
        lemma_count_contrib(fields[0], ph, w);
        if fields[0].value is Some {
            assert(query_contrib(fields[0], ph) =~= seq![(w, fields[0].value.unwrap())]);
            assert(spec_query_pairs(fields, ph)[0] == (w, fields[0].value.unwrap()));
        }
    } else {
        lemma_query_exactness(rest, ph, i - 1);
        lemma_count_contrib(fields[0], ph, w);
        if spec_role(fields[0].meta, ph) is Query {
            assert(spec_query_wire(fields[0].meta) != w);
        }
        if fields[i].value is Some {
            assert(spec_query_pairs(rest, ph).contains((w, fields[i].value.unwrap())));
            let t = choose|t: int|
                0 <= t < spec_query_pairs(rest, ph).len() && spec_query_pairs(rest, ph)[t] == (
                    w,
                    fields[i].value.unwrap(),
                );
            assert(spec_query_pairs(fields, ph)[query_contrib(fields[0], ph).len() + t] == (
                w,
                fields[i].value.unwrap(),
            ));
        }
    }
}

/// The binding map of an ordered list of pairs; an earlier pair wins
/// over a later one with the same key.
pub open spec fn map_of_pairs(pairs: Seq<(Seq<char>, Seq<char>)>) -> Map<Seq<char>, Seq<char>>
    decreases pairs.len(),
{
    if pairs.len() == 0 {
        Map::empty()
    } else {
        map_of_pairs(pairs.drop_first()).insert(pairs[0].0, pairs[0].1)
    }
}

/// No two pairs share a key.
pub open spec fn distinct_keys(pairs: Seq<(Seq<char>, Seq<char>)>) -> bool {
    forall|a: int, b: int|
        0 <= a < b < pairs.len() ==> (#[trigger] pairs[a]).0 != (#[trigger] pairs[b]).0
}

/// What the binding map holds: exactly the listed keys, each bound to
/// its pair's value when keys are distinct.
pub proof fn lemma_map_of_pairs(pairs: Seq<(Seq<char>, Seq<char>)>)
    ensures
        forall|k: Seq<char>|
            #[trigger] map_of_pairs(pairs).contains_key(k) <==> exists|i: int|
                0 <= i < pairs.len() && (#[trigger] pairs[i]).0 == k,
        distinct_keys(pairs) ==> forall|i: int|
            0 <= i < pairs.len() ==> map_of_pairs(pairs).contains_key((#[trigger] pairs[i]).0)
                && map_of_pairs(pairs)[pairs[i].0] == pairs[i].1,
    decreases pairs.len(),
{
    if pairs.len() > 0 {
        let rest = pairs.drop_first();
        lemma_map_of_pairs(rest);
        assert(forall|j: int| 0 <= j < pairs.len() - 1 ==> #[trigger] rest[j] == pairs[j + 1]);
        assert forall|k: Seq<char>| #[trigger] map_of_pairs(pairs).contains_key(k) implies exists|
            i: int,
        |
            0 <= i < pairs.len() && (#[trigger] pairs[i]).0 == k by {
            if k == pairs[0].0 {
                assert(pairs[0].0 == k);
            } else {
                assert(map_of_pairs(rest).contains_key(k));
                let i = choose|i: int| 0 <= i < rest.len() && (#[trigger] rest[i]).0 == k;
                assert(pairs[i + 1].0 == k);
            }
        };
        assert forall|k: Seq<char>|
            (exists|i: int| 0 <= i < pairs.len() && (#[trigger] pairs[i]).0 == k) implies #[trigger] map_of_pairs(
            pairs,
        ).contains_key(k) by {
            let i = choose|i: int| 0 <= i < pairs.len() && (#[trigger] pairs[i]).0 == k;
            if i == 0 {
            } else {
                assert(rest[i - 1].0 == k);
                assert(map_of_pairs(rest).contains_key(k));
            }
        };
        if distinct_keys(pairs) {
            assert(distinct_keys(rest)) by {
                assert(forall|a: int, b: int|
                    0 <= a < b < rest.len() ==> (#[trigger] rest[a]).0 != (#[trigger] rest[b]).0)
                    by {
                    assert(forall|a: int, b: int|
                        0 <= a < b < rest.len() ==> rest[a] == pairs[a + 1] && rest[b] == pairs[b
                            + 1]);
                };
            };
            assert forall|i: int| 0 <= i < pairs.len() implies map_of_pairs(pairs).contains_key(
                (#[trigger] pairs[i]).0,
            ) && map_of_pairs(pairs)[pairs[i].0] == pairs[i].1 by {
                if i == 0 {
                } else {
                    assert(rest[i - 1] == pairs[i]);
                    assert(map_of_pairs(rest)[pairs[i].0] == pairs[i].1);
                    assert(pairs[0].0 != pairs[i].0);
                }
            };
        }
    }
}

/// Order independence of path substitution: the substituted path depends
/// only on which value each name is bound to. Two binding lists that
/// hold the same pairs, in any order, produce the same map and the same
/// substituted string; a token is matched and replaced whole, so no
/// order of bindings can corrupt a longer token through a shorter name.
pub proof fn lemma_subst_order_independent(
    tpl: Seq<char>,
    p1: Seq<(Seq<char>, Seq<char>)>,
    p2: Seq<(Seq<char>, Seq<char>)>,
)
    requires
        distinct_keys(p1),
        distinct_keys(p2),
        p1.to_set() == p2.to_set(),
    ensures
        map_of_pairs(p1) == map_of_pairs(p2),
        spec_subst(tpl, map_of_pairs(p1)) == spec_subst(tpl, map_of_pairs(p2)),
{
    lemma_map_of_pairs(p1);
    lemma_map_of_pairs(p2);
    let m1 = map_of_pairs(p1);
    let m2 = map_of_pairs(p2);
    assert forall|k: Seq<char>| #[trigger] m1.contains_key(k) implies m2.contains_key(k)
        && m1[k] == m2[k] by {
        let i = choose|i: int| 0 <= i < p1.len() && (#[trigger] p1[i]).0 == k;
        assert(p1.to_set().contains(p1[i]));
        assert(p2.contains(p1[i]));
        let j = choose|j: int| 0 <= j < p2.len() && p2[j] == p1[i];
        assert(p2[j].0 == k);
        assert(m1[k] == p1[i].1);
        assert(m2[k] == p2[j].1);
    };
    assert forall|k: Seq<char>| #[trigger] m2.contains_key(k) implies m1.contains_key(k) by {
        let j = choose|j: int| 0 <= j < p2.len() && (#[trigger] p2[j]).0 == k;
        assert(p2.to_set().contains(p2[j]));
        assert(p1.contains(p2[j]));
        let i = choose|i: int| 0 <= i < p1.len() && p1[i] == p2[j];
        assert(p1[i].0 == k);
    };
    assert(m1 =~= m2);
}

/// Idempotence of rendering: the URL and the header set of an instance
/// are functions of the instance alone, so any two renderings of the
/// same unchanged instance are identical.
pub proof fn lemma_render_idempotent(
    tpl: Seq<char>,
    fields: Seq<BoundFieldView>,
    u1: Seq<char>,
    u2: Seq<char>,
    h1: Seq<(Seq<char>, Seq<char>)>,
    h2: Seq<(Seq<char>, Seq<char>)>,
)
    requires
        u1 == spec_url(tpl, fields),
        u2 == spec_url(tpl, fields),
        h1 == spec_header_entries(fields),
        h2 == spec_header_entries(fields),
    ensures
        u1 == u2,
        h1 == h2,
{
}

/// Precedence of the header marker: a marked field is a header whatever
/// its name, and when its name is also a template placeholder that no
/// other field fills, the definition itself is invalid — the field is
/// never substituted into the path.
pub proof fn lemma_header_marker_precedence(
    tpl: Seq<char>,
    fields: Seq<BoundFieldView>,
    i: int,
)
    requires
        0 <= i < fields.len(),
        fields[i].meta.header,
    ensures
        spec_role(fields[i].meta, placeholder_names(tpl)) is Header,
        (placeholder_names(tpl).contains(fields[i].meta.name) && (forall|j: int|
            0 <= j < fields.len() && (#[trigger] fields[j].meta.name) == fields[i].meta.name
                ==> fields[j].meta.header)) ==> !spec_wf_definition(tpl, fields),
{
    let n = fields[i].meta.name;
    if placeholder_names(tpl).contains(n) && (forall|j: int|
        0 <= j < fields.len() && (#[trigger] fields[j].meta.name) == n ==> fields[j].meta.header) {
        assert(forall|j: int| 0 <= j < fields.len() ==> !is_path_field(#[trigger] fields[j], n));
        lemma_find_path_none(fields, n);
        assert(count_path_fields(fields, n) == 0);
    }
}

/// Whether two binding maps agree on every name in `names`.
pub open spec fn maps_agree_on(
    names: Seq<Seq<char>>,
    m1: Map<Seq<char>, Seq<char>>,
    m2: Map<Seq<char>, Seq<char>>,
) -> bool {
    forall|t: int|
        0 <= t < names.len() ==> (m1.contains_key(#[trigger] names[t]) <==> m2.contains_key(
            names[t],
        )) && (m1.contains_key(names[t]) ==> m1[names[t]] == m2[names[t]])
}

/// Substitution from position `i` reads the maps only at the names of
/// the placeholders from `i` on.
proof fn lemma_subst_from_local(
    tpl: Seq<char>,
    i: int,
    m1: Map<Seq<char>, Seq<char>>,
    m2: Map<Seq<char>, Seq<char>>,
)
    requires
        maps_agree_on(placeholders_from(tpl, i), m1, m2),
    ensures
        subst_from(tpl, i, m1) == subst_from(tpl, i, m2),
    decreases tpl.len() - i,
{
    if 0 <= i < tpl.len() {
        match token_at(tpl, i) {
            Some(k) => {
                let here = placeholders_from(tpl, i);
                let rest = placeholders_from(tpl, i + k);
                assert(here == seq![token_name(tpl, i)] + rest);
                assert(here[0] == token_name(tpl, i));
                assert(forall|t: int| 0 <= t < rest.len() ==> #[trigger] rest[t] == here[t + 1]);
                assert(maps_agree_on(rest, m1, m2));
                lemma_subst_from_local(tpl, i + k, m1, m2);
            },
            None => {
                assert(placeholders_from(tpl, i + 1) == placeholders_from(tpl, i));
                lemma_subst_from_local(tpl, i + 1, m1, m2);
            },
        }
    }
}

/// Substitution reads its binding map only at the template's own
/// placeholder names: bindings for any other name — for instance a
/// short name that occurs inside a longer token, as `a` does inside
/// `{ab}` — never change the result. A token is matched and replaced
/// whole or not at all.
pub proof fn lemma_subst_depends_on_placeholders(
    tpl: Seq<char>,
    m1: Map<Seq<char>, Seq<char>>,
    m2: Map<Seq<char>, Seq<char>>,
)
    requires
        forall|n: Seq<char>| #[trigger]
            placeholder_names(tpl).contains(n) ==> (m1.contains_key(n) <==> m2.contains_key(n))
                && (m1.contains_key(n) ==> m1[n] == m2[n]),
    ensures
        spec_subst(tpl, m1) == spec_subst(tpl, m2),
{
    let names = spec_placeholders(tpl);
    assert forall|t: int| 0 <= t < names.len() implies (m1.contains_key(
        #[trigger] names[t],
    ) <==> m2.contains_key(names[t])) && (m1.contains_key(names[t]) ==> m1[names[t]]
        == m2[names[t]]) by {
        assert(placeholder_names(tpl).contains(names[t]));
    };
    lemma_subst_from_local(tpl, 0, m1, m2);
}

} // verus!
