//! Redaction of message text: configured patterns are removed, then the
//! whitespace they leave behind is tidied.

pub mod laws;
pub mod whitespace;

use crate::pattern::{pattern_text, regex_pattern, regex_replace_all, replace_all};
use crate::redaction::laws::{
    blank_tight, lemma_tidied_idempotent, lemma_tidied_tight, newline_tight,
};
use crate::redaction::whitespace::{space_run, space_tail, tidied, tidy};
use crate::text::{chars_of, string_of, texts};
use vstd::prelude::*;

verus! {

/// The patterns that a list of compiled patterns was made from, in order.
pub open spec fn patterns_of(filters: Seq<regex::Regex>) -> Seq<Seq<char>> {
    Seq::new(filters.len(), |i: int| regex_pattern(filters[i]))
}

/// A text after every match of each pattern was removed from it, one pattern
/// after the other in the order of the list: a later pattern searches what
/// the earlier ones left.
pub open spec fn stripped(filters: Seq<regex::Regex>, text: Seq<char>) -> Seq<char>
    decreases filters.len(),
{
    if filters.len() == 0 {
        text
    } else {
        regex_replace_all(filters.last(), stripped(filters.drop_last(), text), ""@)
    }
}

/// A redacted text: the patterns are removed first, the whitespace is tidied
/// after that, so that the gaps the removal leaves are cleaned up as well.
pub open spec fn redacted(filters: Seq<regex::Regex>, text: Seq<char>) -> Seq<char> {
    tidied(stripped(filters, text))
}

/// The patterns that a list of compiled patterns was made from, in order.
pub fn pattern_list(filters: &Vec<regex::Regex>) -> (patterns: Vec<String>)
    ensures
        texts(patterns@) == patterns_of(filters@),
{
    let mut patterns: Vec<String> = Vec::new();
    let mut i: usize = 0;
    while i < filters.len()
        invariant
            i <= filters.len(),
            patterns@.len() == i,
            forall|j: int| 0 <= j < i ==> (#[trigger] patterns@[j])@ == regex_pattern(filters@[j]),
        decreases filters.len() - i,
    {
        patterns.push(pattern_text(&filters[i]).to_owned());
        i += 1;
    }
    assert(texts(patterns@) =~= patterns_of(filters@));
    patterns
}

/// Removes every match of each pattern from a text, in the order of the list.
pub fn strip(filters: &Vec<regex::Regex>, text: &str) -> (out: String)
    ensures
        out@ == stripped(filters@, text@),
{
    let mut out = text.to_owned();
    let mut i: usize = 0;
    assert(filters@.take(0) =~= Seq::<regex::Regex>::empty());
    while i < filters.len()
        invariant
            i <= filters.len(),
            out@ == stripped(filters@.take(i as int), text@),
        decreases filters.len() - i,
    {
        let next = replace_all(&filters[i], out.as_str(), "");
        proof {
            let done = filters@.take(i + 1);
            assert(done.drop_last() =~= filters@.take(i as int));
            assert(done.last() == filters@[i as int]);
        }
        out = next;
        i += 1;
    }
    assert(filters@.take(filters.len() as int) =~= filters@);
    out
}

/// Redacts a message: removes what the patterns match, then tidies the
/// whitespace. The result has no two blanks side by side, no run of three
/// line ends and no whitespace at either end.
pub fn redact(filters: &Vec<regex::Regex>, message: &str) -> (out: String)
    ensures
        out@ == redacted(filters@, message@),
        blank_tight(out@),
        newline_tight(out@),
        space_run(out@) == 0,
        space_tail(out@) == 0,
{
    let bare = strip(filters, message);
    let chars = chars_of(bare.as_str());
    let tidy_chars = tidy(&chars);
    proof {
        lemma_tidied_tight(bare@);
    }
    string_of(&tidy_chars)
}

/// A text in which none of the patterns finds a match passes the removal
/// unchanged.
pub proof fn lemma_stripped_unchanged(filters: Seq<regex::Regex>, text: Seq<char>)
    requires
        forall|i: int| 0 <= i < filters.len() ==> regex_replace_all(#[trigger] filters[i], text, ""@) == text,
    ensures
        stripped(filters, text) == text,
    decreases filters.len(),
{
    if filters.len() > 0 {
        let before = filters.drop_last();
        assert forall|i: int| 0 <= i < before.len() implies regex_replace_all(
            #[trigger] before[i],
            text,
            ""@,
        ) == text by {
            assert(before[i] == filters[i]);
        }
        lemma_stripped_unchanged(before, text);
        assert(filters.last() == filters[filters.len() - 1]);
    }
}

/// Redaction is idempotent wherever no pattern matches what redaction left:
/// redacting a redacted text once more changes nothing.
pub proof fn lemma_redaction_idempotent(filters: Seq<regex::Regex>, text: Seq<char>)
    requires
        forall|i: int|
            0 <= i < filters.len() ==> regex_replace_all(
                #[trigger] filters[i],
                redacted(filters, text),
                ""@,
            ) == redacted(filters, text),
    ensures
        redacted(filters, redacted(filters, text)) == redacted(filters, text),
{
    lemma_stripped_unchanged(filters, redacted(filters, text));
    lemma_tidied_idempotent(stripped(filters, text));
}

/// Without patterns redaction is tidying, and tidying twice is tidying once.
pub proof fn lemma_redaction_without_patterns(text: Seq<char>)
    ensures
        redacted(Seq::empty(), text) == tidied(text),
        redacted(Seq::empty(), redacted(Seq::empty(), text)) == redacted(Seq::empty(), text),
{
    lemma_tidied_idempotent(text);
}

/// Redaction removes before it tidies, so what it gives is tidy whatever
/// the patterns removed: where a match stood among blanks, one blank at most
/// is left.
pub proof fn lemma_redacted_is_tidy(filters: Seq<regex::Regex>, text: Seq<char>)
    ensures
        redacted(filters, text) == tidied(stripped(filters, text)),
        blank_tight(redacted(filters, text)),
        newline_tight(redacted(filters, text)),
        space_run(redacted(filters, text)) == 0,
        space_tail(redacted(filters, text)) == 0,
{
    lemma_tidied_tight(stripped(filters, text));
}

} // verus!
