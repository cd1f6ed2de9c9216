//! What holds of the whitespace passes: their results are tight, a tight text
//! passes through unchanged, and so tidying twice is tidying once.

use crate::redaction::whitespace::{
    blank, blank_run, blanks_collapsed, lemma_blank_run_bound, lemma_newline_reach_bounds,
    newline_count, newline_reach, newlines_collapsed, space, space_run, space_tail, tidied,
    trimmed,
};
use vstd::prelude::*;

verus! {

/// No two blanks stand side by side.
pub open spec fn blank_tight(s: Seq<char>) -> bool
    decreases s.len(),
{
    s.len() == 0 || (blank_run(s) <= 1 && blank_tight(s.skip(1)))
}

/// No newline begins a stretch of whitespace that holds three newlines.
pub open spec fn newline_tight(s: Seq<char>) -> bool
    decreases s.len(),
{
    s.len() == 0 || (!(s[0] == '\n' && newline_count(s) >= 3) && newline_tight(s.skip(1)))
}

proof fn lemma_cons(c: char, x: Seq<char>)
    ensures
        (seq![c] + x).len() == x.len() + 1,
        (seq![c] + x)[0] == c,
        (seq![c] + x).skip(1) == x,
{
    assert((seq![c] + x).skip(1) =~= x);
}

proof fn lemma_blank_run_rest(s: Seq<char>)
    ensures
        blank_run(s) <= s.len(),
        blank_run(s.skip(blank_run(s) as int)) == 0,
    decreases s.len(),
{
    lemma_blank_run_bound(s);
    if s.len() > 0 && blank(s[0]) {
        lemma_blank_run_rest(s.skip(1));
        lemma_blank_run_bound(s.skip(1));
        assert(s.skip(1).skip(blank_run(s.skip(1)) as int) =~= s.skip(blank_run(s) as int));
    } else {
        assert(s.skip(0) =~= s);
    }
}

proof fn lemma_blanks_collapsed_head(s: Seq<char>)
    ensures
        blank_run(s) == 0 ==> blank_run(blanks_collapsed(s)) == 0,
{
    if s.len() > 0 {
        lemma_cons(s[0], blanks_collapsed(s.skip(1)));
    }
}

/// Collapsing blanks leaves no two blanks side by side.
pub proof fn lemma_blanks_collapsed_tight(s: Seq<char>)
    ensures
        blank_tight(blanks_collapsed(s)),
    decreases s.len(),
{
    if s.len() == 0 {
    } else if blank_run(s) >= 2 {
        lemma_blank_run_rest(s);
        let rest = s.skip(blank_run(s) as int);
        lemma_blanks_collapsed_tight(rest);
        lemma_blanks_collapsed_head(rest);
        lemma_cons(' ', blanks_collapsed(rest));
    } else {
        let rest = s.skip(1);
        lemma_blanks_collapsed_tight(rest);
        lemma_cons(s[0], blanks_collapsed(rest));
        if blank(s[0]) {
            lemma_blanks_collapsed_head(rest);
        }
    }
}

/// A text without two blanks side by side has no blanks to collapse.
pub proof fn lemma_blank_tight_unchanged(s: Seq<char>)
    requires
        blank_tight(s),
    ensures
        blanks_collapsed(s) == s,
    decreases s.len(),
{
    if s.len() > 0 {
        lemma_blank_tight_unchanged(s.skip(1));
        assert(seq![s[0]] + s.skip(1) =~= s);
    }
}

proof fn lemma_newline_reach_rest(s: Seq<char>)
    ensures
        newline_reach(s) <= s.len(),
        newline_count(s.skip(newline_reach(s) as int)) == 0,
    decreases s.len(),
{
    lemma_newline_reach_bounds(s);
    if s.len() > 0 && space(s[0]) {
        let tail = s.skip(1);
        lemma_newline_reach_rest(tail);
        lemma_newline_reach_bounds(tail);
        if newline_reach(tail) > 0 {
            assert(tail.skip(newline_reach(tail) as int) =~= s.skip(newline_reach(s) as int));
        } else if s[0] == '\n' {
        } else {
            assert(s.skip(0) =~= s);
        }
    } else {
        assert(s.skip(0) =~= s);
    }
}

proof fn lemma_two_newlines(inner: Seq<char>)
    ensures
        newline_count(seq!['\n', '\n'] + inner) == 2 + newline_count(inner),
        (seq!['\n', '\n'] + inner)[0] == '\n',
        (seq!['\n', '\n'] + inner).skip(1) == seq!['\n'] + inner,
        newline_count(seq!['\n'] + inner) == 1 + newline_count(inner),
        (seq!['\n'] + inner).skip(1) == inner,
{
    let mid = seq!['\n'] + inner;
    let all = seq!['\n', '\n'] + inner;
    assert(space('\n'));
    lemma_cons('\n', inner);
    assert(all.skip(1) =~= mid);
    assert(newline_count(mid) == 1 + newline_count(mid.skip(1)));
    assert(newline_count(all) == 1 + newline_count(all.skip(1)));
}

proof fn lemma_newlines_collapsed_count(s: Seq<char>)
    ensures
        newline_count(newlines_collapsed(s)) == if newline_count(s) <= 2 {
            newline_count(s)
        } else {
            2
        },
    decreases s.len(),
{
    if s.len() == 0 {
    } else if s[0] == '\n' && newline_count(s) >= 3 {
        lemma_newline_reach_rest(s);
        lemma_newline_reach_bounds(s);
        let rest = s.skip(newline_reach(s) as int);
        lemma_newlines_collapsed_count(rest);
        let inner = newlines_collapsed(rest);
        lemma_two_newlines(inner);
    } else {
        let rest = s.skip(1);
        lemma_newlines_collapsed_count(rest);
        lemma_cons(s[0], newlines_collapsed(rest));
    }
}

/// Collapsing line ends leaves no run of three.
pub proof fn lemma_newlines_collapsed_tight(s: Seq<char>)
    ensures
        newline_tight(newlines_collapsed(s)),
    decreases s.len(),
{
    lemma_newlines_collapsed_count(s);
    if s.len() == 0 {
    } else if s[0] == '\n' && newline_count(s) >= 3 {
        lemma_newline_reach_rest(s);
        lemma_newline_reach_bounds(s);
        let rest = s.skip(newline_reach(s) as int);
        lemma_newlines_collapsed_tight(rest);
        lemma_newlines_collapsed_count(rest);
        let inner = newlines_collapsed(rest);
        lemma_two_newlines(inner);
        assert(newline_tight(seq!['\n'] + inner));
        assert(newline_tight(seq!['\n', '\n'] + inner));
    } else {
        let rest = s.skip(1);
        lemma_newlines_collapsed_tight(rest);
        lemma_cons(s[0], newlines_collapsed(rest));
    }
}

/// A text without a run of three line ends has none to collapse.
pub proof fn lemma_newline_tight_unchanged(s: Seq<char>)
    requires
        newline_tight(s),
    ensures
        newlines_collapsed(s) == s,
    decreases s.len(),
{
    if s.len() > 0 {
        lemma_newline_tight_unchanged(s.skip(1));
        assert(seq![s[0]] + s.skip(1) =~= s);
    }
}

proof fn lemma_blank_tight_skip(s: Seq<char>, k: int)
    requires
        blank_tight(s),
        0 <= k <= s.len(),
    ensures
        blank_tight(s.skip(k)),
    decreases k,
{
    if k == 0 {
        assert(s.skip(0) =~= s);
    } else {
        lemma_blank_tight_skip(s.skip(1), k - 1);
        assert(s.skip(1).skip(k - 1) =~= s.skip(k));
    }
}

proof fn lemma_newline_tight_skip(s: Seq<char>, k: int)
    requires
        newline_tight(s),
        0 <= k <= s.len(),
    ensures
        newline_tight(s.skip(k)),
    decreases k,
{
    if k == 0 {
        assert(s.skip(0) =~= s);
    } else {
        lemma_newline_tight_skip(s.skip(1), k - 1);
        assert(s.skip(1).skip(k - 1) =~= s.skip(k));
    }
}

proof fn lemma_blank_run_take(s: Seq<char>, k: int)
    requires
        0 <= k <= s.len(),
    ensures
        blank_run(s.take(k)) <= blank_run(s),
    decreases k,
{
    if k > 0 && blank(s[0]) {
        lemma_blank_run_take(s.skip(1), k - 1);
        assert(s.take(k).skip(1) =~= s.skip(1).take(k - 1));
    }
}

proof fn lemma_newline_count_take(s: Seq<char>, k: int)
    requires
        0 <= k <= s.len(),
    ensures
        newline_count(s.take(k)) <= newline_count(s),
    decreases k,
{
    if k > 0 && space(s[0]) {
        lemma_newline_count_take(s.skip(1), k - 1);
        assert(s.take(k).skip(1) =~= s.skip(1).take(k - 1));
    }
}

proof fn lemma_blank_tight_take(s: Seq<char>, k: int)
    requires
        blank_tight(s),
        0 <= k <= s.len(),
    ensures
        blank_tight(s.take(k)),
    decreases k,
{
    if k > 0 {
        lemma_blank_tight_take(s.skip(1), k - 1);
        assert(s.take(k).skip(1) =~= s.skip(1).take(k - 1));
        lemma_blank_run_take(s, k);
    }
}

proof fn lemma_newline_tight_take(s: Seq<char>, k: int)
    requires
        newline_tight(s),
        0 <= k <= s.len(),
    ensures
        newline_tight(s.take(k)),
    decreases k,
{
    if k > 0 {
        lemma_newline_tight_take(s.skip(1), k - 1);
        assert(s.take(k).skip(1) =~= s.skip(1).take(k - 1));
        lemma_newline_count_take(s, k);
    }
}

proof fn lemma_newlines_collapsed_head(s: Seq<char>)
    ensures
        blank_run(s) == 0 ==> blank_run(newlines_collapsed(s)) == 0,
{
    if s.len() > 0 {
        if s[0] == '\n' && newline_count(s) >= 3 {
            lemma_newline_reach_bounds(s);
            lemma_two_newlines(newlines_collapsed(s.skip(newline_reach(s) as int)));
        } else {
            lemma_cons(s[0], newlines_collapsed(s.skip(1)));
        }
    }
}

/// Collapsing line ends puts no two blanks side by side.
pub proof fn lemma_newlines_collapsed_keeps_blank_tight(s: Seq<char>)
    requires
        blank_tight(s),
    ensures
        blank_tight(newlines_collapsed(s)),
    decreases s.len(),
{
    if s.len() == 0 {
    } else if s[0] == '\n' && newline_count(s) >= 3 {
        lemma_newline_reach_bounds(s);
        let rest = s.skip(newline_reach(s) as int);
        lemma_blank_tight_skip(s, newline_reach(s) as int);
        lemma_newlines_collapsed_keeps_blank_tight(rest);
        let inner = newlines_collapsed(rest);
        lemma_two_newlines(inner);
        assert(blank_tight(seq!['\n'] + inner));
        assert(blank_tight(seq!['\n', '\n'] + inner));
    } else {
        let rest = s.skip(1);
        lemma_newlines_collapsed_keeps_blank_tight(rest);
        lemma_cons(s[0], newlines_collapsed(rest));
        lemma_newlines_collapsed_head(rest);
    }
}

proof fn lemma_space_run_facts(s: Seq<char>)
    ensures
        space_run(s) <= s.len(),
        forall|i: int| 0 <= i < space_run(s) ==> space(#[trigger] s[i]),
        space_run(s) < s.len() ==> !space(s[space_run(s) as int]),
    decreases s.len(),
{
    if s.len() > 0 && space(s[0]) {
        let rest = s.skip(1);
        lemma_space_run_facts(rest);
        assert forall|i: int| 0 <= i < space_run(s) implies space(#[trigger] s[i]) by {
            if i > 0 {
                assert(s[i] == rest[i - 1]);
            }
        }
        if space_run(s) < s.len() {
            assert(s[space_run(s) as int] == rest[space_run(rest) as int]);
        }
    }
}

proof fn lemma_space_tail_facts(s: Seq<char>)
    ensures
        space_tail(s) <= s.len(),
        forall|i: int| s.len() - space_tail(s) <= i < s.len() ==> space(#[trigger] s[i]),
        space_tail(s) < s.len() ==> !space(s[s.len() - space_tail(s) - 1]),
    decreases s.len(),
{
    if s.len() > 0 && space(s.last()) {
        let rest = s.drop_last();
        lemma_space_tail_facts(rest);
        assert forall|i: int| s.len() - space_tail(s) <= i < s.len() implies space(
            #[trigger] s[i],
        ) by {
            if i < s.len() - 1 {
                assert(s[i] == rest[i]);
            }
        }
        if space_tail(s) < s.len() {
            assert(s[s.len() - space_tail(s) - 1] == rest[rest.len() - space_tail(rest) - 1]);
        }
    }
}

proof fn lemma_space_run_zero(s: Seq<char>)
    requires
        s.len() > 0 ==> !space(s[0]),
    ensures
        space_run(s) == 0,
{
}

proof fn lemma_space_tail_zero(s: Seq<char>)
    requires
        s.len() > 0 ==> !space(s.last()),
    ensures
        space_tail(s) == 0,
{
}

/// What trimming leaves has no whitespace at either end, and is a stretch of
/// what went in.
pub proof fn lemma_trimmed_ends(s: Seq<char>)
    ensures
        space_run(trimmed(s)) == 0,
        space_tail(trimmed(s)) == 0,
        space_run(s) < s.len() ==> space_run(s) < s.len() - space_tail(s) && trimmed(s)
            == s.skip(space_run(s) as int).take(s.len() - space_tail(s) - space_run(s)),
{
    lemma_space_run_facts(s);
    lemma_space_tail_facts(s);
    if space_run(s) < s.len() {
        let a = space_run(s) as int;
        let b = s.len() - space_tail(s);
        if b <= a {
            assert(space(s[a]));
        }
        let t = trimmed(s);
        assert(t =~= s.skip(a).take(b - a));
        assert(t[0] == s[a]);
        assert(t.last() == s[b - 1]);
        lemma_space_run_zero(t);
        lemma_space_tail_zero(t);
    } else {
        lemma_space_run_zero(trimmed(s));
        lemma_space_tail_zero(trimmed(s));
    }
}

/// A text without whitespace at either end has none to trim.
pub proof fn lemma_trimmed_unchanged(s: Seq<char>)
    requires
        space_run(s) == 0,
        space_tail(s) == 0,
    ensures
        trimmed(s) == s,
{
    if s.len() > 0 {
        assert(s.subrange(0, s.len() as int) =~= s);
    } else {
        assert(s =~= Seq::<char>::empty());
    }
}

/// Trimming keeps a text tight.
pub proof fn lemma_trimmed_keeps_tight(s: Seq<char>)
    ensures
        blank_tight(s) ==> blank_tight(trimmed(s)),
        newline_tight(s) ==> newline_tight(trimmed(s)),
{
    lemma_trimmed_ends(s);
    if space_run(s) < s.len() {
        let a = space_run(s) as int;
        let b = s.len() - space_tail(s);
        if blank_tight(s) {
            lemma_blank_tight_skip(s, a);
            lemma_blank_tight_take(s.skip(a), b - a);
        }
        if newline_tight(s) {
            lemma_newline_tight_skip(s, a);
            lemma_newline_tight_take(s.skip(a), b - a);
        }
    }
}

/// A tidied text has no two blanks side by side, no run of three line ends
/// and no whitespace at either end.
pub proof fn lemma_tidied_tight(s: Seq<char>)
    ensures
        blank_tight(tidied(s)),
        newline_tight(tidied(s)),
        space_run(tidied(s)) == 0,
        space_tail(tidied(s)) == 0,
{
    let blanks_done = blanks_collapsed(s);
    let lines_done = newlines_collapsed(blanks_done);
    lemma_blanks_collapsed_tight(s);
    lemma_newlines_collapsed_keeps_blank_tight(blanks_done);
    lemma_newlines_collapsed_tight(blanks_done);
    lemma_trimmed_keeps_tight(lines_done);
    lemma_trimmed_ends(lines_done);
}

/// A text that is tight and has no whitespace at its ends is left as it is.
pub proof fn lemma_tight_unchanged(s: Seq<char>)
    requires
        blank_tight(s),
        newline_tight(s),
        space_run(s) == 0,
        space_tail(s) == 0,
    ensures
        tidied(s) == s,
{
    lemma_blank_tight_unchanged(s);
    lemma_newline_tight_unchanged(s);
    lemma_trimmed_unchanged(s);
}

/// Tidying is idempotent: a tidied text is left as it is.
pub proof fn lemma_tidied_idempotent(s: Seq<char>)
    ensures
        tidied(tidied(s)) == tidied(s),
{
    lemma_tidied_tight(s);
    lemma_tight_unchanged(tidied(s));
}

/// In a text without two blanks side by side, of any two neighbours at most
/// one is a blank.
pub proof fn lemma_blank_tight_neighbours(s: Seq<char>, i: int)
    requires
        blank_tight(s),
        0 <= i,
        i + 1 < s.len(),
    ensures
        !(blank(s[i]) && blank(s[i + 1])),
    decreases i,
{
    if i == 0 {
        assert(s.skip(1)[0] == s[1]);
        if blank(s[0]) && blank(s[1]) {
            assert(blank_run(s.skip(1)) >= 1);
        }
    } else {
        lemma_blank_tight_neighbours(s.skip(1), i - 1);
    }
}

} // verus!
