//! Small string-building helpers: decimal rendering of integers, the two
//! boolean words, and hyphenation of identifiers for header wire names.

use vstd::prelude::*;

verus! {

/// Relies on String::push: appends the character to the end of the string.
pub assume_specification[ String::push ](s: &mut String, ch: char)
    ensures
        final(s)@ == old(s)@.push(ch),
;

/// The decimal digit character for `d` (meaningful for `d < 10`).
pub open spec fn digit_char(d: nat) -> char {
    if d == 0 {
        '0'
    } else if d == 1 {
        '1'
    } else if d == 2 {
        '2'
    } else if d == 3 {
        '3'
    } else if d == 4 {
        '4'
    } else if d == 5 {
        '5'
    } else if d == 6 {
        '6'
    } else if d == 7 {
        '7'
    } else if d == 8 {
        '8'
    } else {
        '9'
    }
}

/// The decimal digits of `n`, most significant first.
pub open spec fn dec_str(n: nat) -> Seq<char>
    decreases n,
{
    if n < 10 {
        seq![digit_char(n)]
    } else {
        dec_str(n / 10).push(digit_char(n % 10))
    }
}

/// The decimal rendering of an integer, with a leading minus sign when negative.
pub open spec fn spec_int_str(i: int) -> Seq<char> {
    if i < 0 {
        seq!['-'] + dec_str((-i) as nat)
    } else {
        dec_str(i as nat)
    }
}

/// The exec digit character for `d < 10`.
fn digit_char_exec(d: u64) -> (r: char)
    requires
        d < 10,
    ensures
        r == digit_char(d as nat),
{
    if d == 0 {
        '0'
    } else if d == 1 {
        '1'
    } else if d == 2 {
        '2'
    } else if d == 3 {
        '3'
    } else if d == 4 {
        '4'
    } else if d == 5 {
        '5'
    } else if d == 6 {
        '6'
    } else if d == 7 {
        '7'
    } else if d == 8 {
        '8'
    } else {
        '9'
    }
}

/// Renders a nonnegative value in decimal.
fn u64_to_string(v: u64) -> (r: String)
    ensures
        r@ == dec_str(v as nat),
{
    let mut digits: Vec<char> = Vec::new();
    let mut m: u64 = v;
    while m >= 10
        invariant
            dec_str(v as nat) =~= dec_str(m as nat) + digits@.reverse(),
        decreases m,
    {
        let d = m % 10;
        let ghost old_digits = digits@;
        digits.push(digit_char_exec(d));
        m = m / 10;
        proof {
            assert(digits@.reverse() =~= seq![digit_char(d as nat)] + old_digits.reverse());
            assert(dec_str(v as nat) =~= dec_str(m as nat) + digits@.reverse());
        }
    }
    let ghost final_m = m;
    let mut out = String::new();
    out.push(digit_char_exec(m));
    proof {
        assert(out@ =~= seq![digit_char(final_m as nat)]);
        assert(dec_str(v as nat) =~= out@ + digits@.reverse());
    }
    let n = digits.len();
    let mut idx: usize = 0;
    while idx < n
        invariant
            n == digits@.len(),
            idx <= n,
            out@ =~= seq![digit_char(final_m as nat)] + digits@.reverse().take(idx as int),
            dec_str(v as nat) =~= seq![digit_char(final_m as nat)] + digits@.reverse(),
        decreases n - idx,
    {
        out.push(digits[n - 1 - idx]);
        idx = idx + 1;
        proof {
            assert(digits@.reverse()[idx - 1] == digits@[n - idx]);
            assert(out@ =~= seq![digit_char(final_m as nat)] + digits@.reverse().take(idx as int));
        }
    }
    proof {
        assert(digits@.reverse().take(n as int) =~= digits@.reverse());
    }
    out
}

/// Renders an `i32` in decimal, as its standard string form.
pub fn i32_to_string(v: i32) -> (r: String)
    ensures
        r@ == spec_int_str(v as int),
{
    if v < 0 {
        let wide: i64 = v as i64;
        let mag: u64 = (-wide) as u64;
        let digits = u64_to_string(mag);
        let mut out = String::new();
        out.push('-');
        proof {
            assert(out@ =~= seq!['-']);
        }
        out.append(digits.as_str());
        out
    } else {
        u64_to_string(v as u64)
    }
}

/// The string form of a boolean.
pub open spec fn spec_bool_str(b: bool) -> Seq<char> {
    if b {
        "true"@
    } else {
        "false"@
    }
}

/// Renders a boolean as `"true"` or `"false"`.
pub fn bool_to_string(b: bool) -> (r: String)
    ensures
        r@ == spec_bool_str(b),
{
    if b {
        String::from_str("true")
    } else {
        String::from_str("false")
    }
}

/// The view of an optional `i32` rendered in decimal.
pub open spec fn opt_i32_str(o: Option<i32>) -> Option<Seq<char>> {
    match o {
        Some(v) => Some(spec_int_str(v as int)),
        None => None,
    }
}

/// Renders an optional `i32`.
pub fn opt_i32_to_string(o: &Option<i32>) -> (r: Option<String>)
    ensures
        r.deep_view() == opt_i32_str(*o),
{
    match o {
        Some(v) => Some(i32_to_string(*v)),
        None => None,
    }
}

/// The view of an optional boolean rendered as a word.
pub open spec fn opt_bool_str(o: Option<bool>) -> Option<Seq<char>> {
    match o {
        Some(b) => Some(spec_bool_str(b)),
        None => None,
    }
}

/// Renders an optional boolean.
pub fn opt_bool_to_string(o: &Option<bool>) -> (r: Option<String>)
    ensures
        r.deep_view() == opt_bool_str(*o),
{
    match o {
        Some(b) => Some(bool_to_string(*b)),
        None => None,
    }
}

/// Clones an optional string.
pub fn opt_string_clone(o: &Option<String>) -> (r: Option<String>)
    ensures
        r.deep_view() == o.deep_view(),
{
    match o {
        Some(s) => Some(s.clone()),
        None => None,
    }
}

/// The identifier with every underscore replaced by a hyphen: the default
/// wire name of a header field.
pub open spec fn spec_hyphenate(s: Seq<char>) -> Seq<char> {
    s.map_values(|c: char| if c == '_' { '-' } else { c })
}

/// Replaces every underscore in `name` by a hyphen.
pub fn hyphenate(name: &str) -> (r: String)
    ensures
        r@ == spec_hyphenate(name@),
{
    let n = name.unicode_len();
    let mut out = String::new();
    let mut i: usize = 0;
    while i < n
        invariant
            n == name@.len(),
            i <= n,
            out@ =~= spec_hyphenate(name@.take(i as int)),
        decreases n - i,
    {
        let c = name.get_char(i);
        if c == '_' {
            out.push('-');
        } else {
            out.push(c);
        }
        i = i + 1;
        proof {
            assert(out@ =~= spec_hyphenate(name@.take(i as int)));
        }
    }
    proof {
        assert(name@.take(n as int) =~= name@);
    }
    out
}

} // verus!
