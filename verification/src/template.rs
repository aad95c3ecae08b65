//! Path templates: scanning for `{name}` placeholders and substituting
//! values for them in a single left-to-right pass.

use vstd::prelude::*;

verus! {

/// A character that may appear in a placeholder identifier:
/// ASCII letters, digits and the underscore.
pub open spec fn is_ident_char(c: char) -> bool {
    ('a' as u32) <= (c as u32) && (c as u32) <= ('z' as u32)
        || ('A' as u32) <= (c as u32) && (c as u32) <= ('Z' as u32)
        || ('0' as u32) <= (c as u32) && (c as u32) <= ('9' as u32)
        || c == '_'
}

/// Distance from position `i` to a closing `'}'`, when the characters from
/// `i` onward form a run of identifier characters followed by `'}'`.
pub open spec fn close_dist(tpl: Seq<char>, i: int) -> Option<int>
    decreases tpl.len() - i,
{
    if i < 0 || i >= tpl.len() {
        None
    } else if tpl[i] == '}' {
        Some(0int)
    } else if is_ident_char(tpl[i]) {
        match close_dist(tpl, i + 1) {
            Some(d) => Some(d + 1),
            None => None,
        }
    } else {
        None
    }
}

/// Length of a whole placeholder token `{name}` starting at position `i`,
/// when one starts there: the name must be a nonempty identifier run.
pub open spec fn token_at(tpl: Seq<char>, i: int) -> Option<int> {
    if 0 <= i && i < tpl.len() && tpl[i] == '{' {
        match close_dist(tpl, i + 1) {
            Some(d) => if 1 <= d && i + 2 + d <= tpl.len() {
                Some(d + 2)
            } else {
                None
            },
            None => None,
        }
    } else {
        None
    }
}

/// The identifier between the braces of the token starting at position `i`.
pub open spec fn token_name(tpl: Seq<char>, i: int) -> Seq<char> {
    match token_at(tpl, i) {
        Some(k) => tpl.subrange(i + 1, i + k - 1),
        None => Seq::empty(),
    }
}

/// The placeholder names of `tpl` from position `i` on, in the order they
/// are encountered; a name that occurs twice is listed twice.
pub open spec fn placeholders_from(tpl: Seq<char>, i: int) -> Seq<Seq<char>>
    decreases tpl.len() - i,
{
    if i < 0 || i >= tpl.len() {
        Seq::empty()
    } else {
        match token_at(tpl, i) {
            Some(k) => seq![token_name(tpl, i)] + placeholders_from(tpl, i + k),
            None => placeholders_from(tpl, i + 1),
        }
    }
}

/// All placeholder names of a template, in order of occurrence.
pub open spec fn spec_placeholders(tpl: Seq<char>) -> Seq<Seq<char>> {
    placeholders_from(tpl, 0)
}

/// The set of placeholder names of a template.
pub open spec fn placeholder_names(tpl: Seq<char>) -> Set<Seq<char>> {
    spec_placeholders(tpl).to_set()
}

/// The template from position `i` on with every placeholder token whose
/// name is bound in `m` replaced by its value, in one left-to-right pass:
/// substituted values are never rescanned, and a token whose name is not
/// bound is left as written.
pub open spec fn subst_from(tpl: Seq<char>, i: int, m: Map<Seq<char>, Seq<char>>) -> Seq<char>
    decreases tpl.len() - i,
{
    if i < 0 || i >= tpl.len() {
        Seq::empty()
    } else {
        match token_at(tpl, i) {
            Some(k) => if m.contains_key(token_name(tpl, i)) {
                m[token_name(tpl, i)] + subst_from(tpl, i + k, m)
            } else {
                tpl.subrange(i, i + k) + subst_from(tpl, i + k, m)
            },
            None => seq![tpl[i]] + subst_from(tpl, i + 1, m),
        }
    }
}

/// `tpl` with every bound placeholder substituted.
pub open spec fn spec_subst(tpl: Seq<char>, m: Map<Seq<char>, Seq<char>>) -> Seq<char> {
    subst_from(tpl, 0, m)
}

/// Whether `c` may appear in a placeholder identifier.
pub fn ident_char(c: char) -> (r: bool)
    ensures
        r == is_ident_char(c),
{
    let u = c as u32;
    (97 <= u && u <= 122) || (65 <= u && u <= 90) || (48 <= u && u <= 57) || c == '_'
}

/// Looks for a placeholder token `{name}` starting at position `i`,
/// returning its whole length when one starts there.
pub fn token_scan(template: &str, i: usize, n: usize) -> (r: Option<usize>)
    requires
        n == template@.len(),
        i < n,
    ensures
        match r {
            Some(k) => token_at(template@, i as int) == Some(k as int),
            None => token_at(template@, i as int) is None,
        },
{
    if template.get_char(i) != '{' {
        return None;
    }
    let mut j: usize = i + 1;
    loop
        invariant
            n == template@.len(),
            i + 1 <= j <= n,
            template@[i as int] == '{',
            match close_dist(template@, j as int) {
                Some(d) => close_dist(template@, i + 1) == Some(d + (j - i - 1)),
                None => close_dist(template@, i + 1) is None,
            },
        decreases n - j,
    {
        if j >= n {
            return None;
        }
        let c = template.get_char(j);
        if c == '}' {
            if j - i >= 2 {
                return Some(j + 1 - i);
            } else {
                return None;
            }
        }
        if !ident_char(c) {
            return None;
        }
        j = j + 1;
    }
}

/// Extracts the placeholder names of a template, in order of occurrence.
pub fn extract_placeholders(template: &str) -> (r: Vec<String>)
    ensures
        r.deep_view() == spec_placeholders(template@),
{
    let n = template.unicode_len();
    let mut out: Vec<String> = Vec::new();
    let mut i: usize = 0;
    while i < n
        invariant
            n == template@.len(),
            i <= n,
            out.deep_view() + placeholders_from(template@, i as int) =~= spec_placeholders(
                template@,
            ),
        decreases n - i,
    {
        match token_scan(template, i, n) {
            Some(k) => {
                let name = template.substring_char(i + 1, i + k - 1);
                let ghost old_out = out.deep_view();
                out.push(name.to_owned());
                proof {
                    assert(out.deep_view() =~= old_out.push(name@));
                    assert(name@ == token_name(template@, i as int));
                }
                i = i + k;
            },
            None => {
                i = i + 1;
            },
        }
    }
    out
}

} // verus!
