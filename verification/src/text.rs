//! Splitting text into lines, with `str::lines`.
use vstd::prelude::*;

verus! {

/// The lines of `rest`, the current line so far being `cur`: lines end at `\n` or `\r\n`
/// (not included), and the final line ending is optional.
pub open spec fn lines_from(rest: Seq<char>, cur: Seq<char>) -> Seq<Seq<char>>
    decreases rest.len(),
{
    if rest.len() == 0 {
        if cur.len() == 0 { Seq::empty() } else { seq![cur] }
    } else if rest[0] == '\n' {
        let line = if cur.len() > 0 && cur.last() == '\r' { cur.drop_last() } else { cur };
        seq![line] + lines_from(rest.drop_first(), Seq::empty())
    } else {
        lines_from(rest.drop_first(), cur.push(rest[0]))
    }
}

/// The lines of `s`, as `str::lines` documents them.
pub open spec fn text_lines(s: Seq<char>) -> Seq<Seq<char>> {
    lines_from(s, Seq::empty())
}

/// The lines of `s`, from `str::lines`: split at `\n` and `\r\n`, which are not part of the
/// lines, the final line ending being optional (a `\r` at the very end stays in the last line).
#[verifier::external_body]
pub(crate) fn lines_of(s: &str) -> (r: Vec<String>)
    ensures
        r@.map_values(|l: String| l@) == text_lines(s@),
{
    s.lines().map(|l| l.to_string()).collect()
}

/// The lower-case form of `s`, as `str::to_lowercase` gives it (Unicode case mapping).
pub uninterp spec fn lowercase(s: Seq<char>) -> Seq<char>;

/// The lower-case form of `s`, from `str::to_lowercase`.
#[verifier::external_body]
pub(crate) fn to_lowercase(s: &str) -> (r: String)
    ensures
        r@ == lowercase(s@),
{
    s.to_lowercase()
}

/// `needle` occurs in `hay` as a contiguous part.
pub open spec fn contains_text(hay: Seq<char>, needle: Seq<char>) -> bool {
    exists|i: int| 0 <= i && i + needle.len() <= hay.len() && #[trigger] hay.subrange(i, i + needle.len()) == needle
}

/// Whether `needle` occurs in `hay`, from `str::contains`.
#[verifier::external_body]
pub(crate) fn contains(hay: &str, needle: &str) -> (r: bool)
    ensures
        r == contains_text(hay@, needle@),
{
    hay.contains(needle)
}

/// `title` matches `query` regardless of case.
pub open spec fn matches_query(title: Seq<char>, query: Seq<char>) -> bool {
    contains_text(lowercase(title), lowercase(query))
}

/// Whether `title` matches `query` regardless of case.
pub fn matches_ignore_case(title: &str, query: &str) -> (r: bool)
    ensures
        r == matches_query(title@, query@),
{
    let t = to_lowercase(title);
    let q = to_lowercase(query);
    contains(t.as_str(), q.as_str())
}


/// Matching ignores case: titles, and queries, with the same lower-case form match alike.
pub proof fn lemma_match_ignores_case(t1: Seq<char>, t2: Seq<char>, q1: Seq<char>, q2: Seq<char>)
    requires
        lowercase(t1) == lowercase(t2),
        lowercase(q1) == lowercase(q2),
    ensures
        matches_query(t1, q1) == matches_query(t2, q2),
{
}

/// A title matches every query whose lower-case form is a contiguous part of the title's
/// lower-case form, and no other.
pub proof fn lemma_match_is_lowercase_part(title: Seq<char>, query: Seq<char>, i: int)
    requires
        0 <= i,
        i + lowercase(query).len() <= lowercase(title).len(),
        lowercase(title).subrange(i, i + lowercase(query).len()) == lowercase(query),
    ensures
        matches_query(title, query),
{
    assert(lowercase(title).subrange(i, i + lowercase(query).len()) == lowercase(query));
}

} // verus!
