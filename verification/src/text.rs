//! Small helpers on strings.

use vstd::prelude::*;

verus! {

/// What `str::to_lowercase` returns for a text.
pub uninterp spec fn lowercased(text: Seq<char>) -> Seq<char>;

/// Calls `str::to_lowercase`; trusted to be a function of the text alone.
#[verifier::external_body]
pub(crate) fn lowercase(text: &str) -> (r: String)
    ensures
        r@ == lowercased(text@),
{
    text.to_lowercase()
}

/// The decimal numeral that `ToString::to_string` writes for an integer.
pub uninterp spec fn decimal_text(n: int) -> Seq<char>;

/// Calls `to_string` on an integer; trusted to be a function of the number
/// alone.
#[verifier::external_body]
pub(crate) fn decimal(n: i128) -> (r: String)
    ensures
        r@ == decimal_text(n as int),
{
    n.to_string()
}

/// `pattern` stands in `text` from place `at` on.
pub open spec fn occurs_at(text: Seq<char>, pattern: Seq<char>, at: int) -> bool {
    0 <= at && at + pattern.len() <= text.len() && text.subrange(at, at + pattern.len()) == pattern
}

/// `pattern` stands somewhere in `text`.
pub open spec fn occurs(text: Seq<char>, pattern: Seq<char>) -> bool {
    exists|at: int| occurs_at(text, pattern, at)
}

/// Calls `str::contains` with a text as the pattern: whether the pattern
/// stands somewhere in the text.
#[verifier::external_body]
pub(crate) fn contains_pattern(text: &str, pattern: &str) -> (r: bool)
    ensures
        r == occurs(text@, pattern@),
{
    text.contains(pattern)
}

/// Calls `str::split_once` with a text as the delimiter: the parts before
/// and after the first place where the delimiter stands, and `None` where it
/// stands nowhere.
#[verifier::external_body]
pub(crate) fn split_first<'a>(text: &'a str, pattern: &str) -> (r: Option<(&'a str, &'a str)>)
    ensures
        r is Some == occurs(text@, pattern@),
        r matches Some((front, back)) ==> {
            &&& text@ == front@ + pattern@ + back@
            &&& forall|at: int| 0 <= at < front@.len() ==> !occurs_at(text@, pattern@, at)
        },
{
    text.split_once(pattern)
}

/// Whether two texts hold the same characters.
pub fn same_text(a: &str, b: &str) -> (r: bool)
    ensures
        r == (a@ == b@),
{
    let x = a.to_owned();
    let y = b.to_owned();
    x == y
}

/// The views of a list of texts, in order.
pub open spec fn texts(list: Seq<String>) -> Seq<Seq<char>> {
    list.map_values(|s: String| s@)
}

/// Whether a text is in a list.
pub fn contains_text(list: &Vec<String>, text: &str) -> (r: bool)
    ensures
        r == texts(list@).contains(text@),
{
    let mut i: usize = 0;
    while i < list.len()
        invariant
            i <= list.len(),
            forall|k: int| 0 <= k < i ==> texts(list@)[k] != text@,
        decreases list.len() - i,
    {
        if same_text(list[i].as_str(), text) {
            assert(texts(list@)[i as int] == text@);
            return true;
        }
        i += 1;
    }
    false
}

} // verus!
