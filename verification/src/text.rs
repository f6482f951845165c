//! Text operations that the standard library performs, and what the
//! contracts of this library say of their results: a name where the result
//! takes pages to describe, a statement where a few lines do.

use vstd::prelude::*;

verus! {

/// The lowercase form of `s` as `str::to_lowercase` computes it.
pub uninterp spec fn lowercase_of(s: Seq<char>) -> Seq<char>;

/// `s` without its leading and trailing whitespace, as `str::trim` computes it.
pub uninterp spec fn trimmed_of(s: Seq<char>) -> Seq<char>;

/// Calls `str::to_lowercase`. Nothing is proved of the Unicode case mapping:
/// the contract only gives the result its name, `lowercase_of`.
#[verifier::external_body]
pub(crate) fn to_lowercase(s: &str) -> (lowered: String)
    ensures
        lowered@ == lowercase_of(s@),
{
    s.to_lowercase()
}

/// Calls `str::trim`. Nothing is proved of which characters count as
/// whitespace: the contract only gives the result its name, `trimmed_of`.
#[verifier::external_body]
pub(crate) fn trim(s: &str) -> (inner: &str)
    ensures
        inner@ == trimmed_of(s@),
{
    s.trim()
}

/// `s` with every match of the pattern `from` replaced by `to`. Matches are
/// looked for from the left, and a match begins only after the match before
/// it has ended. This is meant for a pattern that is not empty; for the
/// empty pattern, with which nothing here replaces, it is `s` itself.
pub open spec fn replaced(s: Seq<char>, from: Seq<char>, to: Seq<char>) -> Seq<char>
    decreases s.len(),
{
    if from.len() == 0 || s.len() < from.len() {
        s
    } else if s.take(from.len() as int) == from {
        to + replaced(s.skip(from.len() as int), from, to)
    } else {
        seq![s[0]] + replaced(s.skip(1), from, to)
    }
}

/// Calls `str::replace` with a string that is not empty as the pattern. The
/// contract takes from std's documentation that every match is replaced,
/// matches being found from the left and not overlapping, and that the rest
/// of the text is copied as it is. None of it is proved.
#[verifier::external_body]
pub(crate) fn replace(s: &str, from: &str, to: &str) -> (text: String)
    requires
        from@.len() > 0,
    ensures
        text@ == replaced(s@, from@, to@),
{
    s.replace(from, to)
}

/// Whether the pattern `from` stands in `s` at place `at`.
pub open spec fn occurs_at(s: Seq<char>, from: Seq<char>, at: int) -> bool {
    0 <= at && at + from.len() <= s.len() && s.subrange(at, at + from.len()) == from
}

/// A text in which the pattern does not occur stays as it is.
pub proof fn lemma_replaced_without_match(s: Seq<char>, from: Seq<char>, to: Seq<char>)
    requires
        forall|at: int| !occurs_at(s, from, at),
    ensures
        replaced(s, from, to) == s,
    decreases s.len(),
{
    if from.len() > 0 && s.len() >= from.len() {
        assert(!occurs_at(s, from, 0));
        assert(s.take(from.len() as int) =~= s.subrange(0, 0 + from.len() as int));
        let rest = s.skip(1);
        assert forall|at: int| !occurs_at(rest, from, at) by {
            if occurs_at(rest, from, at) {
                assert(rest.subrange(at, at + from.len()) =~= s.subrange(
                    at + 1,
                    at + 1 + from.len(),
                ));
                assert(occurs_at(s, from, at + 1));
            }
        }
        lemma_replaced_without_match(rest, from, to);
        assert(seq![s[0]] + rest =~= s);
    }
}

/// To replace a pattern by itself changes nothing.
pub proof fn lemma_replaced_by_itself(s: Seq<char>, from: Seq<char>)
    ensures
        replaced(s, from, from) == s,
    decreases s.len(),
{
    if from.len() > 0 && s.len() >= from.len() {
        if s.take(from.len() as int) == from {
            lemma_replaced_by_itself(s.skip(from.len() as int), from);
            assert(s.take(from.len() as int) + s.skip(from.len() as int) =~= s);
        } else {
            lemma_replaced_by_itself(s.skip(1), from);
            assert(seq![s[0]] + s.skip(1) =~= s);
        }
    }
}

/// The path that `std::path::Path::join` makes of a base path and a path to
/// append to it, both given as text.
pub uninterp spec fn joined_path(base: Seq<char>, rest: Seq<char>) -> Seq<char>;

/// Calls `std::path::Path::join` on two paths that are valid text, and hands
/// the joined path back as text. Nothing is proved of how the platform joins
/// paths: the contract only gives the result its name, `joined_path`.
#[verifier::external_body]
pub(crate) fn join_path(base: &str, rest: &str) -> (path: String)
    ensures
        path@ == joined_path(base@, rest@),
{
    std::path::Path::new(base).join(rest).to_string_lossy().into_owned()
}

/// The text of an optional string.
pub open spec fn opt_text(t: Option<String>) -> Option<Seq<char>> {
    match t {
        Some(s) => Some(s@),
        None => None,
    }
}

/// Whether two texts hold the same characters.
pub fn same_text(a: &str, b: &str) -> (same: bool)
    ensures
        same == (a@ == b@),
{
    let left = a.to_owned();
    let right = b.to_owned();
    left == right
}

} // verus!
