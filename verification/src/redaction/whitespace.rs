//! The three whitespace passes that tidy a text once the patterns were
//! removed from it: runs of blanks shrink to one space, runs of blank lines
//! to one blank line, and whitespace at both ends goes.

use vstd::prelude::*;

verus! {

/// A blank is a space or a tab: whitespace that stays on its line.
pub open spec fn blank(c: char) -> bool {
    c == ' ' || c == '\t'
}

/// Whitespace is what Unicode gives the property `White_Space`.
pub open spec fn space(c: char) -> bool {
    let code = c as u32;
    ||| 0x09 <= code <= 0x0D
    ||| code == 0x20
    ||| code == 0x85
    ||| code == 0xA0
    ||| code == 0x1680
    ||| 0x2000 <= code <= 0x200A
    ||| code == 0x2028
    ||| code == 0x2029
    ||| code == 0x202F
    ||| code == 0x205F
    ||| code == 0x3000
}

/// How many blanks a text begins with.
pub open spec fn blank_run(s: Seq<char>) -> nat
    decreases s.len(),
{
    if s.len() > 0 && blank(s[0]) {
        1 + blank_run(s.skip(1))
    } else {
        0
    }
}

/// How many whitespace characters a text begins with.
pub open spec fn space_run(s: Seq<char>) -> nat
    decreases s.len(),
{
    if s.len() > 0 && space(s[0]) {
        1 + space_run(s.skip(1))
    } else {
        0
    }
}

/// How many whitespace characters a text ends with.
pub open spec fn space_tail(s: Seq<char>) -> nat
    decreases s.len(),
{
    if s.len() > 0 && space(s.last()) {
        1 + space_tail(s.drop_last())
    } else {
        0
    }
}

/// How many newlines stand in the whitespace that a text begins with.
pub open spec fn newline_count(s: Seq<char>) -> nat
    decreases s.len(),
{
    if s.len() > 0 && space(s[0]) {
        (if s[0] == '\n' {
            1nat
        } else {
            0nat
        }) + newline_count(s.skip(1))
    } else {
        0
    }
}

/// The length of the shortest beginning of a text that holds every newline
/// of the whitespace the text begins with; zero where that holds none.
pub open spec fn newline_reach(s: Seq<char>) -> nat
    decreases s.len(),
{
    if s.len() > 0 && space(s[0]) {
        let rest = newline_reach(s.skip(1));
        if rest > 0 {
            rest + 1
        } else if s[0] == '\n' {
            1
        } else {
            0
        }
    } else {
        0
    }
}

pub proof fn lemma_blank_run_bound(s: Seq<char>)
    ensures
        blank_run(s) <= s.len(),
    decreases s.len(),
{
    if s.len() > 0 && blank(s[0]) {
        lemma_blank_run_bound(s.skip(1));
    }
}

pub proof fn lemma_newline_reach_bounds(s: Seq<char>)
    ensures
        newline_reach(s) <= s.len(),
        newline_count(s) > 0 <==> newline_reach(s) > 0,
    decreases s.len(),
{
    if s.len() > 0 && space(s[0]) {
        lemma_newline_reach_bounds(s.skip(1));
    }
}

/// A text with every run of two or more blanks replaced by one space. A
/// blank that stands alone stays as it is, a tab too.
pub open spec fn blanks_collapsed(s: Seq<char>) -> Seq<char>
    decreases s.len(),
{
    if s.len() == 0 {
        Seq::empty()
    } else if blank_run(s) >= 2 {
        proof {
            lemma_blank_run_bound(s);
        }
        seq![' '] + blanks_collapsed(s.skip(blank_run(s) as int))
    } else {
        seq![s[0]] + blanks_collapsed(s.skip(1))
    }
}

/// A text with every stretch that runs from a newline through whitespace to
/// the last of at least two further newlines replaced by two newlines: three
/// or more line ends with nothing but whitespace between them become one
/// blank line.
pub open spec fn newlines_collapsed(s: Seq<char>) -> Seq<char>
    decreases s.len(),
{
    if s.len() == 0 {
        Seq::empty()
    } else if s[0] == '\n' && newline_count(s) >= 3 {
        proof {
            lemma_newline_reach_bounds(s);
        }
        seq!['\n', '\n'] + newlines_collapsed(s.skip(newline_reach(s) as int))
    } else {
        seq![s[0]] + newlines_collapsed(s.skip(1))
    }
}

/// A text without the whitespace it begins and ends with.
pub open spec fn trimmed(s: Seq<char>) -> Seq<char> {
    if space_run(s) >= s.len() {
        Seq::empty()
    } else {
        s.subrange(space_run(s) as int, s.len() - space_tail(s))
    }
}

/// A text after the three passes, in their order: blanks, blank lines, ends.
pub open spec fn tidied(s: Seq<char>) -> Seq<char> {
    trimmed(newlines_collapsed(blanks_collapsed(s)))
}

/// Whether a character is a space or a tab.
pub fn is_blank(c: char) -> (b: bool)
    ensures
        b == blank(c),
{
    c == ' ' || c == '\t'
}

/// Whether a character is whitespace.
pub fn is_space(c: char) -> (b: bool)
    ensures
        b == space(c),
{
    let code: u32 = c as u32;
    (0x09 <= code && code <= 0x0D) || code == 0x20 || code == 0x85 || code == 0xA0 || code
        == 0x1680 || (0x2000 <= code && code <= 0x200A) || code == 0x2028 || code == 0x2029 || code
        == 0x202F || code == 0x205F || code == 0x3000
}

/// Replaces every run of two or more blanks by one space.
pub fn collapse_blanks(text: &Vec<char>) -> (out: Vec<char>)
    ensures
        out@ == blanks_collapsed(text@),
{
    let n = text.len();
    let mut out: Vec<char> = Vec::new();
    let mut i: usize = 0;
    assert(text@.skip(0) =~= text@);
    while i < n
        invariant
            i <= n,
            n == text.len(),
            out@ + blanks_collapsed(text@.skip(i as int)) == blanks_collapsed(text@),
        decreases n - i,
    {
        let ghost rest = text@.skip(i as int);
        let mut j: usize = i;
        assert(text@.skip(j as int) == rest);
        while j < n && is_blank(text[j])
            invariant
                i <= j <= n,
                n == text.len(),
                rest == text@.skip(i as int),
                blank_run(rest) == (j - i) + blank_run(text@.skip(j as int)),
            decreases n - j,
        {
            assert(text@.skip(j as int).skip(1) =~= text@.skip(j + 1));
            j += 1;
        }
        let ghost before = out@;
        if j - i >= 2 {
            out.push(' ');
            proof {
                assert(rest.skip((j - i) as int) =~= text@.skip(j as int));
                assert(out@ + blanks_collapsed(text@.skip(j as int)) =~= before + blanks_collapsed(rest));
            }
            i = j;
        } else {
            out.push(text[i]);
            proof {
                assert(rest.skip(1) =~= text@.skip(i + 1));
                assert(out@ + blanks_collapsed(text@.skip(i + 1)) =~= before + blanks_collapsed(rest));
            }
            i += 1;
        }
    }
    assert(out@ + Seq::<char>::empty() =~= out@);
    out
}

/// Replaces every run of three or more line ends, with nothing but
/// whitespace between them, by two newlines.
pub fn collapse_newlines(text: &Vec<char>) -> (out: Vec<char>)
    ensures
        out@ == newlines_collapsed(text@),
{
    let n = text.len();
    let mut out: Vec<char> = Vec::new();
    let mut i: usize = 0;
    assert(text@.skip(0) =~= text@);
    while i < n
        invariant
            i <= n,
            n == text.len(),
            out@ + newlines_collapsed(text@.skip(i as int)) == newlines_collapsed(text@),
        decreases n - i,
    {
        let ghost rest = text@.skip(i as int);
        let ghost before = out@;
        let mut count: usize = 0;
        let mut reach: usize = 0;
        if text[i] == '\n' {
            let mut j: usize = i;
            assert(text@.skip(j as int) == rest);
            while j < n && is_space(text[j])
                invariant
                    i <= j <= n,
                    n == text.len(),
                    rest == text@.skip(i as int),
                    count <= j - i,
                    reach <= j - i,
                    newline_count(rest) == count + newline_count(text@.skip(j as int)),
                    newline_reach(rest) == if newline_reach(text@.skip(j as int)) > 0 {
                        (j - i) + newline_reach(text@.skip(j as int))
                    } else {
                        reach as int
                    },
                decreases n - j,
            {
                assert(text@.skip(j as int).skip(1) =~= text@.skip(j + 1));
                if text[j] == '\n' {
                    count += 1;
                    reach = j - i + 1;
                }
                j += 1;
            }
        }
        if count >= 3 {
            out.push('\n');
            out.push('\n');
            proof {
                assert(rest.skip(reach as int) =~= text@.skip(i + reach));
                assert(out@ + newlines_collapsed(text@.skip(i + reach)) =~= before
                    + newlines_collapsed(rest));
            }
            i = i + reach;
        } else {
            out.push(text[i]);
            proof {
                assert(rest.skip(1) =~= text@.skip(i + 1));
                assert(out@ + newlines_collapsed(text@.skip(i + 1)) =~= before + newlines_collapsed(
                    rest,
                ));
            }
            i += 1;
        }
    }
    assert(out@ + Seq::<char>::empty() =~= out@);
    out
}

/// Removes the whitespace that a text begins and ends with.
pub fn trim(text: &Vec<char>) -> (out: Vec<char>)
    ensures
        out@ == trimmed(text@),
{
    let n = text.len();
    let mut start: usize = 0;
    assert(text@.skip(0) =~= text@);
    while start < n && is_space(text[start])
        invariant
            start <= n,
            n == text.len(),
            space_run(text@) == start + space_run(text@.skip(start as int)),
        decreases n - start,
    {
        assert(text@.skip(start as int).skip(1) =~= text@.skip(start + 1));
        start += 1;
    }
    let mut end: usize = n;
    assert(text@.take(n as int) =~= text@);
    while end > start && is_space(text[end - 1])
        invariant
            start <= end <= n,
            n == text.len(),
            start < n ==> !space(text@[start as int]) && start < end,
            space_tail(text@) == (n - end) + space_tail(text@.take(end as int)),
        decreases end,
    {
        assert(text@.take(end as int).drop_last() =~= text@.take(end - 1));
        end -= 1;
    }
    let mut out: Vec<char> = Vec::new();
    let mut k: usize = start;
    while k < end
        invariant
            start <= k <= end <= n,
            n == text.len(),
            out@ == text@.subrange(start as int, k as int),
        decreases end - k,
    {
        out.push(text[k]);
        assert(text@.subrange(start as int, k + 1) =~= text@.subrange(start as int, k as int).push(
            text@[k as int],
        ));
        k += 1;
    }
    proof {
        if start < n {
            assert(text@.take(end as int).last() == text@[end - 1]);
            assert(space_tail(text@.take(end as int)) == 0);
        } else {
            assert(out@ =~= Seq::<char>::empty());
        }
    }
    out
}

/// Runs the three passes over a text, in their order.
pub fn tidy(text: &Vec<char>) -> (out: Vec<char>)
    ensures
        out@ == tidied(text@),
{
    let blanks_done = collapse_blanks(text);
    let lines_done = collapse_newlines(&blanks_done);
    trim(&lines_done)
}

} // verus!
