//! The line model: a body of text is an ordered sequence of lines split at
//! newline boundaries. A line ending is `\n` or `\r\n`; lines keep no line
//! ending, and a final line ending produces no extra empty line.

use vstd::prelude::*;

verus! {

/// Character position of the first `'\n'` in `s`, or `s.len()` if there is none.
pub open spec fn first_newline(s: Seq<char>) -> int
    decreases s.len(),
{
    if s.len() == 0 {
        0
    } else if s[0] == '\n' {
        0
    } else {
        1 + first_newline(s.skip(1))
    }
}

/// A line with its terminating `'\n'` already removed, with a trailing `'\r'`
/// (the first half of a `\r\n` ending) removed as well.
pub open spec fn strip_cr(l: Seq<char>) -> Seq<char> {
    if l.len() > 0 && l[l.len() - 1] == '\r' {
        l.drop_last()
    } else {
        l
    }
}

/// The lines of `s`, in order. Empty text has no lines; text whose last
/// character is a line ending yields no extra empty line after it; a final
/// line without a line ending is kept whole (including any trailing `'\r'`,
/// since a lone `'\r'` is not a line ending).
pub open spec fn lines_of(s: Seq<char>) -> Seq<Seq<char>>
    decreases s.len(),
{
    if s.len() == 0 {
        Seq::empty()
    } else {
        let i = first_newline(s);
        if 0 <= i < s.len() {
            seq![strip_cr(s.take(i))] + lines_of(s.skip(i + 1))
        } else {
            seq![s]
        }
    }
}

/// A position with no newline before it, and a newline at it unless it is
/// the end of the text, is the first newline.
pub proof fn lemma_first_newline_at(s: Seq<char>, i: int)
    requires
        0 <= i <= s.len(),
        forall|j: int| 0 <= j < i ==> s[j] != '\n',
        i < s.len() ==> s[i] == '\n',
    ensures
        first_newline(s) == i,
    decreases s.len(),
{
    if s.len() == 0 {
    } else if s[0] == '\n' {
        assert(i == 0);
    } else {
        assert(i >= 1);
        assert forall|j: int| 0 <= j < i - 1 implies s.skip(1)[j] != '\n' by {
            assert(s.skip(1)[j] == s[j + 1]);
        }
        if i - 1 < s.skip(1).len() {
            assert(s.skip(1)[i - 1] == s[i]);
        }
        lemma_first_newline_at(s.skip(1), i - 1);
    }
}

/// Returns the character position of the first `'\n'` at or after `start`,
/// or `len` if there is none.
fn find_newline(contents: &str, start: usize, len: usize) -> (j: usize)
    requires
        len == contents@.len(),
        start <= len,
    ensures
        start <= j <= len,
        forall|k: int| start <= k < j ==> contents@[k] != '\n',
        j < len ==> contents@[j as int] == '\n',
{
    let mut j = start;
    while j < len
        invariant
            len == contents@.len(),
            start <= j <= len,
            forall|k: int| start <= k < j ==> contents@[k] != '\n',
        decreases len - j,
    {
        if contents.get_char(j) == '\n' {
            return j;
        }
        j += 1;
    }
    j
}

/// Splits text into its lines, as `lines_of` describes.
pub fn split_lines<'a>(contents: &'a str) -> (r: Vec<&'a str>)
    ensures
        r.deep_view() == lines_of(contents@),
{
    let len = contents.unicode_len();
    let mut r: Vec<&'a str> = Vec::new();
    let mut start: usize = 0;
    proof {
        assert(contents@.skip(0) =~= contents@);
        assert(r.deep_view() =~~= Seq::<Seq<char>>::empty());
        assert(lines_of(contents@) =~~= r.deep_view() + lines_of(contents@.skip(0)));
    }
    while start < len
        invariant
            len == contents@.len(),
            start <= len,
            lines_of(contents@) =~~= r.deep_view() + lines_of(contents@.skip(start as int)),
        decreases len - start,
    {
        let ghost suffix = contents@.skip(start as int);
        let j = find_newline(contents, start, len);
        proof {
            assert forall|k: int| 0 <= k < j - start implies suffix[k] != '\n' by {
                assert(suffix[k] == contents@[start + k]);
            }
            if j < len {
                assert(suffix[j - start] == contents@[j as int]);
            }
            lemma_first_newline_at(suffix, j - start);
        }
        if j == len {
            // No further newline: the rest is one final line, kept whole.
            let line = contents.substring_char(start, len);
            proof {
                assert(line@ =~= suffix);
                assert(lines_of(suffix) =~~= seq![suffix]);
                assert((r.deep_view() + lines_of(suffix)).drop_last() =~~= r.deep_view());
            }
            r.push(line);
            proof {
                assert(r.deep_view() =~~= lines_of(contents@));
                assert(lines_of(contents@.skip(len as int)) =~~= Seq::<Seq<char>>::empty());
            }
            start = len;
        } else {
            // A newline at j ends the current line; drop a '\r' just before it.
            let mut end = j;
            if end > start && contents.get_char(end - 1) == '\r' {
                end -= 1;
            }
            let line = contents.substring_char(start, end);
            proof {
                let head = suffix.take(j - start);
                assert(head =~= contents@.subrange(start as int, j as int));
                if j > start && contents@[j - 1] == '\r' {
                    assert(head[head.len() - 1] == contents@[j - 1]);
                    assert(strip_cr(head) =~= contents@.subrange(start as int, j - 1));
                } else {
                    if head.len() > 0 {
                        assert(head[head.len() - 1] == contents@[j - 1]);
                    }
                    assert(strip_cr(head) =~= head);
                }
                assert(line@ =~= strip_cr(head));
                assert(lines_of(suffix) =~~= seq![strip_cr(head)] + lines_of(suffix.skip(j - start + 1)));
                assert(suffix.skip(j - start + 1) =~= contents@.skip(j + 1));
            }
            r.push(line);
            proof {
                assert(lines_of(contents@) =~~= r.deep_view() + lines_of(contents@.skip(j + 1)));
            }
            start = j + 1;
        }
    }
    proof {
        assert(lines_of(contents@.skip(start as int)) =~~= Seq::<Seq<char>>::empty());
        assert(r.deep_view() =~~= lines_of(contents@));
    }
    r
}

} // verus!
