//! Form-urlencoding of an ordered list of key/value pairs, through
//! `serde_urlencoded`.

use vstd::prelude::*;

verus! {

/// What `serde_urlencoded::to_string` returns for an ordered list of
/// string pairs: a function of the pairs alone.
pub uninterp spec fn form_encoded_of(pairs: Seq<(Seq<char>, Seq<char>)>) -> Seq<char>;

/// A character that form-urlencoding passes through unchanged: ASCII
/// letters and digits, `*`, `-`, `.` and `_`.
pub open spec fn is_plain_char(c: char) -> bool {
    let u = c as u32;
    (48 <= u && u <= 57) || (65 <= u && u <= 90) || (97 <= u && u <= 122) || u == 42 || u == 45
        || u == 46 || u == 95
}

/// Whether every character of `s` passes through encoding unchanged.
pub open spec fn plain_str(s: Seq<char>) -> bool {
    forall|i: int| 0 <= i < s.len() ==> is_plain_char(s[i])
}

/// Whether every key and value in `pairs` passes through unchanged.
pub open spec fn all_plain(pairs: Seq<(Seq<char>, Seq<char>)>) -> bool {
    forall|i: int|
        0 <= i < pairs.len() ==> plain_str(#[trigger] pairs[i].0) && plain_str(pairs[i].1)
}

/// The pairs joined as `k=v`, `&`-separated, with no escaping: the form
/// encoding of pairs made of plain characters only.
pub open spec fn plain_joined(pairs: Seq<(Seq<char>, Seq<char>)>) -> Seq<char>
    decreases pairs.len(),
{
    if pairs.len() == 0 {
        Seq::empty()
    } else if pairs.len() == 1 {
        pairs[0].0 + seq!['='] + pairs[0].1
    } else {
        pairs[0].0 + seq!['='] + pairs[0].1 + seq!['&'] + plain_joined(pairs.drop_first())
    }
}

/// Relies on serde_urlencoded::to_string: it form-urlencodes an ordered
/// list of string pairs (`k=v`, joined by `&`; bytes outside the
/// unreserved set percent-encoded, space as `+`), never fails on string
/// pairs, and passes the characters of `is_plain_char` through unchanged.
#[verifier::external_body]
pub fn urlencode_pairs(pairs: &Vec<(String, String)>) -> (r: String)
    ensures
        r@ == form_encoded_of(pairs.deep_view()),
        pairs.deep_view().len() == 0 ==> r@.len() == 0,
        all_plain(pairs.deep_view()) ==> r@ == plain_joined(pairs.deep_view()),
{
    serde_urlencoded::to_string(pairs).unwrap()
}

} // verus!
