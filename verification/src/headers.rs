//! Header building: the wire name and value of every header-role field,
//! validated byte by byte, collected in field order into a header set.

use vstd::prelude::*;
use crate::errors::RenderError;
use crate::fields::{BoundField, BoundFieldView, FieldMeta, spec_header_wire};
use crate::text::hyphenate;

verus! {

/// A character acceptable in a header name: the HTTP token characters
/// `! # $ % & ' * + - . ^ _ ` | ~`, digits and ASCII letters.
pub open spec fn is_header_name_char(c: char) -> bool {
    let u = c as u32;
    u == 33 || u == 35 || u == 36 || u == 37 || u == 38 || u == 39 || u == 42 || u == 43 || u == 45
        || u == 46 || (48 <= u && u <= 57) || (65 <= u && u <= 90) || u == 94 || u == 95 || u == 96
        || (97 <= u && u <= 122) || u == 124 || u == 126
}

/// A valid header name: nonempty, at most 65535 bytes, all of them header
/// name characters.
pub open spec fn spec_valid_header_name(s: Seq<char>) -> bool {
    1 <= s.len() <= 65535 && (forall|i: int| 0 <= i < s.len() ==> is_header_name_char(s[i]))
}

/// A character acceptable in a header value: horizontal tab, or anything
/// that is neither an ASCII control character nor delete.
pub open spec fn is_header_value_char(c: char) -> bool {
    let u = c as u32;
    u == 9 || (u >= 32 && u != 127)
}

/// A valid header value: every character acceptable (the empty value is).
pub open spec fn spec_valid_header_value(s: Seq<char>) -> bool {
    forall|i: int| 0 <= i < s.len() ==> is_header_value_char(s[i])
}

/// Relies on reqwest::header::HeaderName::from_bytes (the http crate's
/// HeaderName): it accepts exactly the nonempty names of at most 65535
/// bytes whose bytes all lie in its token table; a character outside
/// that ASCII table, or any multi-byte character, is rejected either way.
#[verifier::external_body]
pub fn header_name_ok(name: &str) -> (r: bool)
    ensures
        r == spec_valid_header_name(name@),
{
    reqwest::header::HeaderName::from_bytes(name.as_bytes()).is_ok()
}

/// Relies on reqwest::header::HeaderValue::from_bytes: it accepts exactly
/// the byte strings whose bytes are horizontal tab or at least 32 and not
/// delete; every byte of a multi-byte character is 128 or more, so a
/// string of acceptable characters is accepted as a whole.
#[verifier::external_body]
pub fn header_value_ok(value: &str) -> (r: bool)
    ensures
        r == spec_valid_header_value(value@),
{
    reqwest::header::HeaderValue::from_bytes(value.as_bytes()).is_ok()
}

/// The wire name of a header field.
pub fn header_wire(meta: &FieldMeta) -> (r: String)
    ensures
        r@ == spec_header_wire(meta@),
{
    match &meta.header_rename {
        Some(r) => r.clone(),
        None => hyphenate(meta.name.as_str()),
    }
}

/// The index of the first entry with key `k`.
pub open spec fn find_key(entries: Seq<(Seq<char>, Seq<char>)>, k: Seq<char>) -> Option<int>
    decreases entries.len(),
{
    if entries.len() == 0 {
        None
    } else if entries[0].0 == k {
        Some(0int)
    } else {
        match find_key(entries.drop_first(), k) {
            Some(i) => Some(i + 1),
            None => None,
        }
    }
}

/// Inserting into a header set: a present key keeps its position and
/// takes the new value, an absent key goes to the end.
pub open spec fn spec_upsert(
    entries: Seq<(Seq<char>, Seq<char>)>,
    k: Seq<char>,
    v: Seq<char>,
) -> Seq<(Seq<char>, Seq<char>)> {
    match find_key(entries, k) {
        Some(i) => entries.update(i, (k, v)),
        None => entries.push((k, v)),
    }
}

/// Whether a field raises no header fault: either it contributes no
/// header (no marker, or absent), or its wire name and value are valid.
pub open spec fn header_ok(f: BoundFieldView) -> bool {
    f.meta.header && f.value is Some ==> spec_valid_header_name(spec_header_wire(f.meta))
        && spec_valid_header_value(f.value.unwrap())
}

/// The view of the first header fault among the fields, if any: the
/// payload is the offending field's identifier.
pub enum HeaderFaultView {
    BadName(Seq<char>),
    BadValue(Seq<char>),
}

/// The fault of one field, when it has one.
pub open spec fn field_fault(f: BoundFieldView) -> Option<HeaderFaultView> {
    if f.meta.header && f.value is Some {
        if !spec_valid_header_name(spec_header_wire(f.meta)) {
            Some(HeaderFaultView::BadName(f.meta.name))
        } else if !spec_valid_header_value(f.value.unwrap()) {
            Some(HeaderFaultView::BadValue(f.meta.name))
        } else {
            None
        }
    } else {
        None
    }
}

/// The first header fault among the fields, in field order.
pub open spec fn first_header_fault(fields: Seq<BoundFieldView>) -> Option<HeaderFaultView>
    decreases fields.len(),
{
    if fields.len() == 0 {
        None
    } else {
        match field_fault(fields[0]) {
            Some(e) => Some(e),
            None => first_header_fault(fields.drop_first()),
        }
    }
}

/// The header set contributed by the fields, in field order, with
/// insert-replace on a repeated wire name (meaningful when no field
/// raises a fault).
pub open spec fn spec_header_entries(fields: Seq<BoundFieldView>) -> Seq<(Seq<char>, Seq<char>)>
    decreases fields.len(),
{
    if fields.len() == 0 {
        Seq::empty()
    } else {
        let prev = spec_header_entries(fields.drop_last());
        let f = fields.last();
        if f.meta.header && f.value is Some {
            spec_upsert(prev, spec_header_wire(f.meta), f.value.unwrap())
        } else {
            prev
        }
    }
}

/// No fault means every field is fault-free, and a fault is the first
/// faulty field's.
pub proof fn lemma_first_fault(fields: Seq<BoundFieldView>)
    ensures
        first_header_fault(fields) is None <==> (forall|j: int|
            0 <= j < fields.len() ==> header_ok(#[trigger] fields[j])),
        first_header_fault(fields) matches Some(e) ==> exists|j: int|
            {
                &&& 0 <= j < fields.len()
                &&& field_fault(#[trigger] fields[j]) == Some(e)
                &&& forall|t: int| 0 <= t < j ==> header_ok(#[trigger] fields[t])
            },
    decreases fields.len(),
{
    if fields.len() > 0 {
        let rest = fields.drop_first();
        lemma_first_fault(rest);
        assert(forall|j: int|
            #![trigger rest[j]]
            #![trigger fields[j + 1]]
            0 <= j < fields.len() - 1 ==> rest[j] == fields[j + 1]);
        assert(header_ok(fields[0]) <==> field_fault(fields[0]) is None);
        if field_fault(fields[0]) is None {
            match first_header_fault(rest) {
                Some(e) => {
                    assert(first_header_fault(fields) == Some(e));
                    let j = choose|j: int|
                        {
                            &&& 0 <= j < rest.len()
                            &&& field_fault(#[trigger] rest[j]) == Some(e)
                            &&& forall|t: int| 0 <= t < j ==> header_ok(#[trigger] rest[t])
                        };
                    assert(field_fault(fields[j + 1]) == Some(e));
                    assert forall|t: int| 0 <= t < j + 1 implies header_ok(
                        #[trigger] fields[t],
                    ) by {
                        if t > 0 {
                            assert(rest[t - 1] == fields[t]);
                            assert(header_ok(rest[t - 1]));
                        }
                    };
                    assert(!header_ok(fields[j + 1]));
                },
                None => {
                    assert(first_header_fault(fields) is None);
                    assert forall|t: int| 0 <= t < fields.len() implies header_ok(
                        #[trigger] fields[t],
                    ) by {
                        if t > 0 {
                            assert(rest[t - 1] == fields[t]);
                            assert(header_ok(rest[t - 1]));
                        }
                    };
                },
            }
        } else {
            assert(first_header_fault(fields) == field_fault(fields[0]));
            assert(!header_ok(fields[0]));
        }
    }
}

/// A known first fault pins down `first_header_fault`.
pub proof fn lemma_fault_at(fields: Seq<BoundFieldView>, i: int)
    requires
        0 <= i < fields.len(),
        field_fault(fields[i]) is Some,
        forall|t: int| 0 <= t < i ==> header_ok(#[trigger] fields[t]),
    ensures
        first_header_fault(fields) == field_fault(fields[i]),
    decreases fields.len(),
{
    assert(forall|j: int|
        0 <= j < fields.len() - 1 ==> #[trigger] fields.drop_first()[j] == fields[j + 1]);
    if i == 0 {
    } else {
        assert(header_ok(fields[0]) <==> field_fault(fields[0]) is None);
        lemma_fault_at(fields.drop_first(), i - 1);
    }
}

/// Inserts `(name, value)` into the header set: a present name keeps its
/// position and takes the new value, an absent one goes to the end.
pub fn upsert(entries: &mut Vec<(String, String)>, name: String, value: String)
    ensures
        final(entries).deep_view() == spec_upsert(old(entries).deep_view(), name@, value@),
{
    let ghost k = name@;
    let ghost kv = value@;
    let n = entries.len();
    let mut i: usize = 0;
    while i < n
        invariant
            n == entries@.len(),
            i <= n,
            k == name@,
            kv == value@,
            forall|j: int| 0 <= j < i ==> #[trigger] entries.deep_view()[j].0 != k,
            entries@ == old(entries)@,
        decreases n - i,
    {
        if entries[i].0.eq(&name) {
            proof {
                assert(entries.deep_view()[i as int].0 == k);
                lemma_find_key_at(entries.deep_view(), k, i as int);
            }
            let ghost prev = entries.deep_view();
            entries.set(i, (name, value));
            proof {
                assert(entries.deep_view() =~= prev.update(i as int, (k, kv)));
            }
            return ;
        }
        i = i + 1;
    }
    proof {
        lemma_find_key_none(entries.deep_view(), k);
    }
    let ghost prev = entries.deep_view();
    entries.push((name, value));
    proof {
        assert(entries.deep_view() =~= prev.push((k, kv)));
    }
}

/// A first match at `i` pins down `find_key`.
proof fn lemma_find_key_at(entries: Seq<(Seq<char>, Seq<char>)>, k: Seq<char>, i: int)
    requires
        0 <= i < entries.len(),
        entries[i].0 == k,
        forall|j: int| 0 <= j < i ==> entries[j].0 != k,
    ensures
        find_key(entries, k) == Some(i),
    decreases entries.len(),
{
    assert(forall|j: int|
        0 <= j < entries.len() - 1 ==> #[trigger] entries.drop_first()[j] == entries[j + 1]);
    if i > 0 {
        lemma_find_key_at(entries.drop_first(), k, i - 1);
    }
}

/// No match anywhere means `find_key` finds nothing.
proof fn lemma_find_key_none(entries: Seq<(Seq<char>, Seq<char>)>, k: Seq<char>)
    requires
        forall|j: int| 0 <= j < entries.len() ==> entries[j].0 != k,
    ensures
        find_key(entries, k) is None,
    decreases entries.len(),
{
    assert(forall|j: int|
        0 <= j < entries.len() - 1 ==> #[trigger] entries.drop_first()[j] == entries[j + 1]);
    if entries.len() > 0 {
        lemma_find_key_none(entries.drop_first(), k);
    }
}

/// Builds the header set of an instance: every header-role field with a
/// present value contributes its wire name and value, in field order;
/// the first field whose name or value fails validation is the error.
pub fn render_headers(fields: &Vec<BoundField>) -> (r: Result<Vec<(String, String)>, RenderError>)
    ensures
        match r {
            Ok(hs) => first_header_fault(fields.deep_view()) is None && hs.deep_view()
                == spec_header_entries(fields.deep_view()),
            Err(e) => match first_header_fault(fields.deep_view()) {
                Some(HeaderFaultView::BadName(f)) => e matches RenderError::InvalidHeaderName(s)
                    && s@ == f,
                Some(HeaderFaultView::BadValue(f)) => e matches RenderError::InvalidHeaderValue(s)
                    && s@ == f,
                None => false,
            },
        },
{
    let n = fields.len();
    let mut entries: Vec<(String, String)> = Vec::new();
    let mut i: usize = 0;
    while i < n
        invariant
            n == fields@.len(),
            i <= n,
            entries.deep_view() == spec_header_entries(fields.deep_view().take(i as int)),
            forall|t: int| 0 <= t < i ==> header_ok(#[trigger] fields.deep_view()[t]),
        decreases n - i,
    {
        let f = &fields[i];
        if f.meta.header {
            match &f.value {
                Some(v) => {
                    let wire = header_wire(&f.meta);
                    if !header_name_ok(wire.as_str()) {
                        proof {
                            lemma_fault_at(fields.deep_view(), i as int);
                        }
                        return Err(RenderError::InvalidHeaderName(f.meta.name.clone()));
                    }
                    if !header_value_ok(v.as_str()) {
                        proof {
                            lemma_fault_at(fields.deep_view(), i as int);
                        }
                        return Err(RenderError::InvalidHeaderValue(f.meta.name.clone()));
                    }
                    upsert(&mut entries, wire, v.clone());
                },
                None => {},
            }
        }
        i = i + 1;
        proof {
            let pre = fields.deep_view().take(i as int);
            assert(pre.drop_last() =~= fields.deep_view().take(i - 1));
            assert(pre.last() == fields.deep_view()[i - 1]);
        }
    }
    proof {
        assert(fields.deep_view().take(n as int) =~= fields.deep_view());
        lemma_first_fault(fields.deep_view());
    }
    Ok(entries)
}

} // verus!
