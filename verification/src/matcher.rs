//! The two matchers: given a query and a body of text, return every line of
//! the text containing the query, either by exact comparison or after folding
//! both sides to lowercase.

use vstd::prelude::*;

use crate::config::Config;
use crate::lines::lines_of;
use crate::lines::split_lines;
use crate::substring::contains_seq;
use crate::substring::contains_str;

verus! {

/// The lowercase folding of a character sequence, as `str::to_lowercase`
/// computes it. The folding may change the length of the sequence.
pub uninterp spec fn lower_of(s: Seq<char>) -> Seq<char>;

/// Relies on `str::to_lowercase`: the lowercase form of a string depends on
/// its characters alone.
#[verifier::external_body]
fn to_lower(s: &str) -> (r: String)
    ensures
        r@ == lower_of(s@),
{
    s.to_lowercase()
}

/// A line matches a query exactly when it contains it as a substring.
pub open spec fn line_matches(q: Seq<char>) -> spec_fn(Seq<char>) -> bool {
    |l: Seq<char>| contains_seq(l, q)
}

/// A line matches a query case-insensitively when its lowercase folding
/// contains the lowercase folding of the query.
pub open spec fn line_matches_insensitive(q: Seq<char>) -> spec_fn(Seq<char>) -> bool {
    |l: Seq<char>| contains_seq(lower_of(l), lower_of(q))
}

/// The lines of `c` that contain `q`, in their order of appearance.
pub open spec fn search_spec(q: Seq<char>, c: Seq<char>) -> Seq<Seq<char>> {
    lines_of(c).filter(line_matches(q))
}

/// The lines of `c` whose lowercase folding contains the lowercase folding
/// of `q`, in their order of appearance.
pub open spec fn search_insensitive_spec(q: Seq<char>, c: Seq<char>) -> Seq<Seq<char>> {
    lines_of(c).filter(line_matches_insensitive(q))
}

/// One step of filtering: extending the kept prefix by one line extends the
/// filtered result by that line exactly when the predicate holds of it.
proof fn lemma_filter_take_step<A>(s: Seq<A>, p: spec_fn(A) -> bool, i: int)
    requires
        0 <= i < s.len(),
    ensures
        p(s[i]) ==> s.take(i + 1).filter(p) == s.take(i).filter(p).push(s[i]),
        !p(s[i]) ==> s.take(i + 1).filter(p) == s.take(i).filter(p),
{
    reveal(Seq::filter);
    let t = s.take(i + 1);
    assert(t.drop_last() =~= s.take(i));
    assert(t.last() == s[i]);
    assert(t.len() != 0);
}

/// Returns the lines of `contents` that contain `query` as a contiguous
/// substring of characters, in their order of appearance. An empty query
/// matches every line; empty contents have no lines.
pub fn search<'a>(query: &str, contents: &'a str) -> (r: Vec<&'a str>)
    ensures
        r.deep_view() == search_spec(query@, contents@),
{
    let ghost ls = lines_of(contents@);
    let lines = split_lines(contents);
    let mut r: Vec<&'a str> = Vec::new();
    proof {
        reveal(Seq::filter);
        assert(ls.take(0) =~= Seq::<Seq<char>>::empty());
        assert(r.deep_view() =~~= ls.take(0).filter(line_matches(query@)));
    }
    let mut idx: usize = 0;
    while idx < lines.len()
        invariant
            lines.deep_view() == ls,
            ls == lines_of(contents@),
            idx <= lines.len(),
            r.deep_view() =~~= ls.take(idx as int).filter(line_matches(query@)),
        decreases lines.len() - idx,
    {
        let line = lines[idx];
        proof {
            assert(line@ == ls[idx as int]);
            lemma_filter_take_step(ls, line_matches(query@), idx as int);
        }
        if contains_str(line, query) {
            r.push(line);
        }
        idx += 1;
    }
    proof {
        assert(ls.take(ls.len() as int) =~= ls);
    }
    r
}

/// Returns the lines of `contents` whose lowercase folding contains the
/// lowercase folding of `query`, in their order of appearance. The returned
/// lines are the original lines, not their folded forms.
pub fn search_case_insensitive<'a>(query: &str, contents: &'a str) -> (r: Vec<&'a str>)
    ensures
        r.deep_view() == search_insensitive_spec(query@, contents@),
{
    let ghost ls = lines_of(contents@);
    let lower_query = to_lower(query);
    let lines = split_lines(contents);
    let mut r: Vec<&'a str> = Vec::new();
    proof {
        reveal(Seq::filter);
        assert(ls.take(0) =~= Seq::<Seq<char>>::empty());
        assert(r.deep_view() =~~= ls.take(0).filter(line_matches_insensitive(query@)));
    }
    let mut idx: usize = 0;
    while idx < lines.len()
        invariant
            lines.deep_view() == ls,
            ls == lines_of(contents@),
            lower_query@ == lower_of(query@),
            idx <= lines.len(),
            r.deep_view() =~~= ls.take(idx as int).filter(line_matches_insensitive(query@)),
        decreases lines.len() - idx,
    {
        let line = lines[idx];
        let lower_line = to_lower(line);
        proof {
            assert(line@ == ls[idx as int]);
            lemma_filter_take_step(ls, line_matches_insensitive(query@), idx as int);
        }
        if contains_str(lower_line.as_str(), lower_query.as_str()) {
            r.push(line);
        }
        idx += 1;
    }
    proof {
        assert(ls.take(ls.len() as int) =~= ls);
    }
    r
}

/// Runs the matcher that the configuration selects on the given contents:
/// the case-insensitive one when `ignore_case` is set, the exact one
/// otherwise.
pub fn run_search<'a>(config: &Config, contents: &'a str) -> (r: Vec<&'a str>)
    ensures
        config.ignore_case ==> r.deep_view() == search_insensitive_spec(config.query@, contents@),
        !config.ignore_case ==> r.deep_view() == search_spec(config.query@, contents@),
{
    if config.ignore_case {
        search_case_insensitive(config.query.as_str(), contents)
    } else {
        search(config.query.as_str(), contents)
    }
}

} // verus!
