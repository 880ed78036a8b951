//! Line counting for the local analysis behaviour.
//!
//! A snippet's line count is the number of its line-break-delimited
//! segments, under standard line-splitting semantics: a trailing line
//! break closes the final segment without opening an empty one, and
//! the empty string has no segments at all.

use vstd::prelude::*;

verus! {

/// The line-break-delimited segments of `s`. A line break ends the
/// segment before it; a trailing line break therefore adds no empty
/// segment, and the empty string splits into no segments.
pub open spec fn line_segments(s: Seq<char>) -> Seq<Seq<char>>
    decreases s.len(),
{
    if s.len() == 0 {
        Seq::empty()
    } else if s.first() == '\n' {
        seq![Seq::<char>::empty()] + line_segments(s.drop_first())
    } else {
        let rest = line_segments(s.drop_first());
        if rest.len() == 0 {
            seq![seq![s.first()]]
        } else {
            seq![seq![s.first()] + rest.first()] + rest.drop_first()
        }
    }
}

/// The number of line-break-delimited segments of `s`.
pub open spec fn line_count(s: Seq<char>) -> nat {
    line_segments(s).len()
}

/// How many characters of `s` are line breaks.
pub open spec fn newline_count(s: Seq<char>) -> nat
    decreases s.len(),
{
    if s.len() == 0 {
        0
    } else {
        newline_count(s.drop_last()) + (if s.last() == '\n' { 1nat } else { 0nat })
    }
}

/// Counting line breaks from the front agrees with counting them from
/// the back.
proof fn lemma_newline_count_first(s: Seq<char>)
    requires
        s.len() > 0,
    ensures
        newline_count(s) == (if s.first() == '\n' { 1nat } else { 0nat }) + newline_count(
            s.drop_first(),
        ),
    decreases s.len(),
{
    if s.len() == 1 {
        assert(s.drop_last() =~= Seq::<char>::empty());
        assert(s.drop_first() =~= Seq::<char>::empty());
    } else {
        lemma_newline_count_first(s.drop_last());
        assert(s.drop_last().drop_first() =~= s.drop_first().drop_last());
        assert(s.drop_last().first() == s.first());
        assert(s.drop_first().last() == s.last());
    }
}

/// No string holds more line breaks than characters.
proof fn lemma_newline_count_le_len(s: Seq<char>)
    ensures
        newline_count(s) <= s.len(),
    decreases s.len(),
{
    if s.len() > 0 {
        lemma_newline_count_le_len(s.drop_last());
    }
}

/// For every string, the number of line-break-delimited segments is
/// determined by the number of line breaks alone: the empty string has
/// no segments; a string closed by a line break has exactly as many
/// segments as line breaks; any other non-empty string has one more.
pub proof fn lemma_line_count_by_newlines(s: Seq<char>)
    ensures
        line_count(s) == (if s.len() == 0 {
            0nat
        } else if s.last() == '\n' {
            newline_count(s)
        } else {
            newline_count(s) + 1nat
        }),
    decreases s.len(),
{
    if s.len() == 0 {
    } else {
        let rest = s.drop_first();
        lemma_newline_count_first(s);
        lemma_line_count_by_newlines(rest);
        if s.len() == 1 {
            assert(rest =~= Seq::<char>::empty());
            assert(s.last() == s.first());
        } else {
            assert(rest.last() == s.last());
            assert(rest.len() > 0);
        }
    }
}

/// Counts the line-break-delimited segments of `s`, as standard line
/// splitting would produce them.
pub fn count_lines(s: &str) -> (n: usize)
    ensures
        n == line_count(s@),
{
    let n_chars = s.unicode_len();
    let mut newlines: usize = 0;
    let mut last_nl: bool = false;
    for c in it: s.chars()
        invariant
            it.seq() == s@,
            s@.len() <= usize::MAX,
            newlines == newline_count(s@.take(it.index())),
            last_nl == (it.index() > 0 && s@[it.index() - 1] == '\n'),
            newlines <= it.index(),
    {
        proof {
            assert(s@.take(it.index() + 1).drop_last() =~= s@.take(it.index()));
            assert(s@.take(it.index() + 1).last() == s@[it.index()]);
        }
        if c == '\n' {
            newlines = newlines + 1;
            last_nl = true;
        } else {
            last_nl = false;
        }
    }
    proof {
        assert(s@.take(s@.len() as int) =~= s@);
        lemma_line_count_by_newlines(s@);
        if s@.len() > 0 && s@.last() != '\n' {
            lemma_newline_count_le_len(s@.drop_last());
        }
    }
    if n_chars == 0 {
        0
    } else if last_nl {
        newlines
    } else {
        newlines + 1
    }
}

} // verus!
