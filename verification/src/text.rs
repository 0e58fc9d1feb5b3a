//! Texts as sequences of characters: lower-casing, joining, line endings.

use vstd::prelude::*;
use vstd::string::*;

verus! {

/// The lower-case form of a text, as `str::to_lowercase` of the standard
/// library gives it. It depends on the characters of the text alone.
pub uninterp spec fn lowercase(text: Seq<char>) -> Seq<char>;

/// Two texts match without regard to case when their lower-case forms are the
/// same text.
pub open spec fn eq_ignoring_case(a: Seq<char>, b: Seq<char>) -> bool {
    lowercase(a) == lowercase(b)
}

/// Trusted: calls `str::to_lowercase`, and claims that what it returns is the
/// lower-case form of `text`. Nothing is claimed of what that form is.
#[verifier::external_body]
pub(crate) fn to_lowercase(text: &str) -> (lowered: String)
    ensures
        lowered@ == lowercase(text@),
{
    text.to_lowercase()
}

/// All the parts, one after the other, as one text.
pub open spec fn join(parts: Seq<Seq<char>>) -> Seq<char>
    decreases parts.len(),
{
    if parts.len() == 0 {
        Seq::empty()
    } else {
        join(parts.drop_last()) + parts.last()
    }
}

/// Joining the first `n + 1` parts appends part `n` to the first `n` joined.
pub proof fn lemma_join_take(parts: Seq<Seq<char>>, n: int)
    requires
        0 <= n < parts.len(),
    ensures
        join(parts.take(n + 1)) == join(parts.take(n)) + parts[n],
{
    assert(parts.take(n + 1).drop_last() == parts.take(n));
}

/// A line without the line feed at its end, if it has one, and then without
/// the carriage return at its end, if it has one.
pub open spec fn without_line_ending(line: Seq<char>) -> Seq<char> {
    let fed = if line.len() > 0 && line.last() == '\n' {
        line.drop_last()
    } else {
        line
    };
    if fed.len() > 0 && fed.last() == '\r' {
        fed.drop_last()
    } else {
        fed
    }
}

/// Takes the line ending off a line that was read from a terminal.
pub fn trim_line_ending(line: &str) -> (trimmed: String)
    ensures
        trimmed@ == without_line_ending(line@),
{
    let mut end: usize = line.unicode_len();
    if end > 0 && line.get_char(end - 1) == '\n' {
        end = end - 1;
    }
    if end > 0 && line.get_char(end - 1) == '\r' {
        end = end - 1;
    }
    String::from_str(line.substring_char(0, end))
}

} // verus!
