//! Laws of the matchers, stated and proved over the specification model that
//! the matchers' contracts use.

use vstd::prelude::*;

use crate::lines::lines_of;
use crate::matcher::line_matches;
use crate::matcher::line_matches_insensitive;
use crate::matcher::lower_of;
use crate::matcher::search_insensitive_spec;
use crate::matcher::search_spec;
use crate::substring::contains_at;
use crate::substring::contains_seq;

verus! {

/// Filtering keeps a sequence whole when the predicate holds of every element.
proof fn lemma_filter_keeps_all<A>(s: Seq<A>, p: spec_fn(A) -> bool)
    requires
        forall|i: int| 0 <= i < s.len() ==> p(#[trigger] s[i]),
    ensures
        s.filter(p) == s,
    decreases s.len(),
{
    reveal(Seq::filter);
    if s.len() == 0 {
        assert(s.filter(p) =~= s);
    } else {
        assert forall|i: int| 0 <= i < s.drop_last().len() implies p(#[trigger] s.drop_last()[i]) by {
            assert(s.drop_last()[i] == s[i]);
        }
        lemma_filter_keeps_all(s.drop_last(), p);
        assert(p(s[s.len() - 1]));
        assert(s.filter(p) =~= s);
    }
}

/// Filtering by a stronger predicate never yields more copies of any element
/// than filtering by a weaker one.
proof fn lemma_filter_count_le<A>(s: Seq<A>, p: spec_fn(A) -> bool, q: spec_fn(A) -> bool, x: A)
    requires
        forall|i: int| 0 <= i < s.len() && p(#[trigger] s[i]) ==> q(s[i]),
    ensures
        s.filter(p).to_multiset().count(x) <= s.filter(q).to_multiset().count(x),
    decreases s.len(),
{
    broadcast use vstd::seq_lib::group_to_multiset_ensures;
    broadcast use vstd::multiset::group_multiset_axioms;

    reveal(Seq::filter);
    if s.len() > 0 {
        let d = s.drop_last();
        assert forall|i: int| 0 <= i < d.len() && p(#[trigger] d[i]) implies q(d[i]) by {
            assert(d[i] == s[i]);
        }
        lemma_filter_count_le(d, p, q, x);
        assert(s[s.len() - 1] == s.last());
        if p(s.last()) {
            assert(q(s.last()));
        }
    }
}

/// The case-insensitive matcher returns, for every line value, at least as
/// many copies as the case-sensitive one, provided lowercase folding
/// preserves each matching line's match — as it does wherever query and
/// contents stay within scripts with a single case mapping.
pub proof fn lemma_insensitive_superset_by_count(q: Seq<char>, c: Seq<char>, x: Seq<char>)
    requires
        forall|i: int| 0 <= i < lines_of(c).len() && contains_seq(#[trigger] lines_of(c)[i], q)
            ==> contains_seq(lower_of(lines_of(c)[i]), lower_of(q)),
    ensures
        search_spec(q, c).to_multiset().count(x)
            <= search_insensitive_spec(q, c).to_multiset().count(x),
{
    lemma_filter_count_le(lines_of(c), line_matches(q), line_matches_insensitive(q), x);
}

/// An empty query matches every line: the case-sensitive matcher returns
/// every line of the contents, in original order.
pub proof fn lemma_empty_query_returns_all_lines(c: Seq<char>)
    ensures
        search_spec(Seq::empty(), c) == lines_of(c),
{
    assert forall|i: int| 0 <= i < lines_of(c).len() implies line_matches(Seq::empty())(
        #[trigger] lines_of(c)[i],
    ) by {
        let l = lines_of(c)[i];
        assert(l.subrange(0, 0) =~= Seq::<char>::empty());
        assert(contains_at(l, Seq::empty(), 0));
    }
    lemma_filter_keeps_all(lines_of(c), line_matches(Seq::empty()));
}

/// Empty contents have no lines: for every query, the case-sensitive matcher
/// returns an empty sequence.
pub proof fn lemma_empty_contents_return_nothing(q: Seq<char>)
    ensures
        search_spec(q, Seq::empty()) == Seq::<Seq<char>>::empty(),
{
    reveal(Seq::filter);
    assert(lines_of(Seq::empty()) =~= Seq::<Seq<char>>::empty());
    assert(search_spec(q, Seq::empty()) =~= Seq::<Seq<char>>::empty());
}

/// Running the same matcher twice on identical inputs yields identical,
/// order-preserving output: each matcher's contract pins its whole result as
/// a function of the inputs alone, so any two results that meet the contract
/// of the selected matcher on the same query and contents are equal.
pub proof fn lemma_matcher_idempotent(
    q: Seq<char>,
    c: Seq<char>,
    r1: Seq<Seq<char>>,
    r2: Seq<Seq<char>>,
    ignore_case: bool,
)
    requires
        ignore_case ==> r1 == search_insensitive_spec(q, c) && r2 == search_insensitive_spec(q, c),
        !ignore_case ==> r1 == search_spec(q, c) && r2 == search_spec(q, c),
    ensures
        r1 == r2,
{
}

} // verus!
