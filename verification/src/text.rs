//! Small tools for text.

use vstd::prelude::*;
use vstd::string::{StrSliceExecFns, StringExecFns};

verus! {

/// The lower-case form that std gives a text.
pub uninterp spec fn lowercase_of(text: Seq<char>) -> Seq<char>;

/// Whether `pattern` stands somewhere in `text`.
pub open spec fn has_part(text: Seq<char>, pattern: Seq<char>) -> bool {
    exists|i: int|
        0 <= i && i + pattern.len() <= text.len() && #[trigger] text.subrange(
            i,
            i + pattern.len(),
        ) == pattern
}

/// The texts of a sequence of strings.
pub open spec fn texts(strings: Seq<String>) -> Seq<Seq<char>> {
    strings.map_values(|s: String| s@)
}

/// Whether `text` ends in `tail`.
pub open spec fn ends_in(text: Seq<char>, tail: Seq<char>) -> bool {
    tail.len() <= text.len() && text.subrange(text.len() - tail.len(), text.len() as int) == tail
}

/// Whether a file's name has the extension: it ends in a dot and the extension, and more
/// than that stands before the dot.
pub open spec fn has_extension(name: Seq<char>, extension: Seq<char>) -> bool {
    name.len() > extension.len() + 1 && ends_in(name, seq!['.'] + extension)
}

/// Whether two pieces of text hold the same characters.
pub fn same_text(a: &str, b: &str) -> (r: bool)
    ensures
        r == (a@ == b@),
{
    let x = a.to_owned();
    let y = b.to_owned();
    x == y
}

/// The characters of `a` followed by those of `b`.
pub fn appended(a: &str, b: &str) -> (r: String)
    ensures
        r@ == a@ + b@,
{
    let mut out = a.to_owned();
    out.append(b);
    out
}

/// Whether `text` ends in `tail`.
pub fn ends_with(text: &str, tail: &str) -> (r: bool)
    ensures
        r == ends_in(text@, tail@),
{
    let n = text.unicode_len();
    let m = tail.unicode_len();
    if m > n {
        false
    } else {
        same_text(text.substring_char(n - m, n), tail)
    }
}

/// Whether a file's name has the extension.
pub fn name_has_extension(name: &str, extension: &str) -> (r: bool)
    ensures
        r == has_extension(name@, extension@),
{
    let n = name.unicode_len();
    let m = extension.unicode_len();
    if n <= m || n - m <= 1 {
        return false;
    }
    proof {
        reveal_strlit(".");
        assert("."@ =~= seq!['.']);
    }
    let tail = appended(".", extension);
    ends_with(name, tail.as_str())
}

/// `str::to_lowercase` of std. Claimed: the result depends on the text alone.
#[verifier::external_body]
pub(crate) fn to_lowercase(text: &str) -> (r: String)
    ensures
        r@ == lowercase_of(text@),
{
    text.to_lowercase()
}

/// `str::contains` of std, with a text as the pattern. Claimed: it tells whether the pattern's
/// characters stand in the text, one after the other, at some place.
#[verifier::external_body]
pub(crate) fn str_contains(text: &str, pattern: &str) -> (r: bool)
    ensures
        r == has_part(text@, pattern@),
{
    text.contains(pattern)
}

} // verus!
