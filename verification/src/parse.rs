//! Parsing of delimiter-separated pairs, such as an image size `"1000x750"`
//! or a complex corner `"-1.2,0.35"`.

use vstd::prelude::*;
use vstd::string::StrSliceExecFns;

verus! {

/// `sep` occurs nowhere in `s`.
pub open spec fn lacks_char(s: Seq<char>, sep: char) -> bool {
    forall|j: int| 0 <= j < s.len() ==> s[j] != sep
}

/// `i` is the index of the first occurrence of `sep` in `s`.
pub open spec fn is_first_occurrence(s: Seq<char>, sep: char, i: int) -> bool {
    &&& 0 <= i < s.len()
    &&& s[i] == sep
    &&& forall|j: int| 0 <= j < i ==> s[j] != sep
}

/// Index of the first occurrence of `sep` in `s`, if any.
fn find_char(s: &str, sep: char) -> (r: Option<usize>)
    ensures
        match r {
            Some(i) => is_first_occurrence(s@, sep, i as int),
            None => lacks_char(s@, sep),
        },
{
    let n: usize = s.unicode_len();
    let mut k: usize = 0;
    while k < n
        invariant
            n == s@.len(),
            k <= n,
            forall|j: int| 0 <= j < k ==> s@[j] != sep,
        decreases n - k,
    {
        if s.get_char(k) == sep {
            return Some(k);
        }
        k = k + 1;
    }
    None
}

/// Splits `s` at the first occurrence of `separator` into the text before it
/// and the text after it; the separator itself belongs to neither side.
/// Returns `None` exactly when the separator does not occur.
pub fn split_pair<'a>(s: &'a str, separator: char) -> (r: Option<(&'a str, &'a str)>)
    ensures
        r is Some <==> !lacks_char(s@, separator),
        r matches Some(fields) ==> exists|i: int|
            #[trigger] is_first_occurrence(s@, separator, i)
            && fields.0@ == s@.subrange(0, i)
            && fields.1@ == s@.subrange(i + 1, s@.len() as int),
{
    match find_char(s, separator) {
        None => None,
        Some(i) => {
            let n: usize = s.unicode_len();
            let left = s.substring_char(0, i);
            let right = s.substring_char(i + 1, n);
            Some((left, right))
        },
    }
}

/// Relies on `str::FromStr::from_str`, the standard numeric (and other)
/// string parsers; nothing is assumed of which inputs a given type accepts,
/// so a field is carried over as `Some` exactly when that parser accepted it.
#[verifier::external_body]
fn parse_field<T: core::str::FromStr>(s: &str) -> Option<T> {
    <T as core::str::FromStr>::from_str(s).ok()
}

/// A parsed pair exactly when both fields parsed.
pub fn combine_fields<T>(left: Option<T>, right: Option<T>) -> (r: Option<(T, T)>)
    ensures
        match (left, right) {
            (Some(l), Some(rt)) => r == Some((l, rt)),
            _ => r is None,
        },
{
    match (left, right) {
        (Some(l), Some(rt)) => Some((l, rt)),
        _ => None,
    }
}

/// Parses `s` as two `T` values separated by one `separator` character:
/// the field before the first separator and the field after it.
///
/// Returns `None` when the separator is absent; when it is present, the
/// result is `Some` exactly when both fields are accepted by `T`'s parser
/// (an empty field, for the numeric types, is rejected by that parser).
pub fn parse_pair<T: core::str::FromStr>(s: &str, separator: char) -> (r: Option<(T, T)>)
    ensures
        lacks_char(s@, separator) ==> r is None,
        r is Some ==> !lacks_char(s@, separator),
{
    match split_pair(s, separator) {
        None => None,
        Some((left, right)) => combine_fields(parse_field::<T>(left), parse_field::<T>(right)),
    }
}

} // verus!
