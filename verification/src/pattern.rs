//! Compiled patterns, as the `regex` crate holds them.
//!
//! The client neither parses a pattern nor searches with one itself: both are
//! the work of `regex`, reached through the functions of this module, whose
//! contracts are taken on trust from that crate's source.

use vstd::prelude::*;

verus! {

/// A compiled pattern of `regex`.
#[verifier::external_type_specification]
#[verifier::external_body]
pub struct ExRegex(regex::Regex);

/// The error of `regex`.
#[verifier::external_type_specification]
#[verifier::external_body]
pub struct ExRegexError(regex::Error);

/// Whether `Regex::new` accepts a pattern.
pub uninterp spec fn regex_compiles(pattern: Seq<char>) -> bool;

/// The pattern that a compiled pattern was made from, which `Regex::as_str`
/// gives back.
pub uninterp spec fn regex_pattern(compiled: regex::Regex) -> Seq<char>;

/// What `Regex::replace_all` makes of a text with a compiled pattern and a
/// replacement text: every match of the pattern, from the left and without
/// overlap, replaced by the replacement, in which `$` refers to what the
/// match captured.
pub uninterp spec fn regex_replace_all(compiled: regex::Regex, text: Seq<char>, replacement: Seq<
    char,
>) -> Seq<char>;

/// Calls `Regex::new`. It fails on a pattern that is not valid or compiles to
/// more than the default size limit; else the compiled pattern keeps the text
/// it was made from.
#[verifier::external_body]
pub(crate) fn compile(pattern: &str) -> (compiled: Result<regex::Regex, regex::Error>)
    ensures
        compiled is Ok <==> regex_compiles(pattern@),
        compiled matches Ok(made) ==> regex_pattern(made) == pattern@,
{
    regex::Regex::new(pattern)
}

/// Calls `Regex::as_str`, which returns the text the pattern was compiled from.
#[verifier::external_body]
pub(crate) fn pattern_text(compiled: &regex::Regex) -> (pattern: &str)
    ensures
        pattern@ == regex_pattern(*compiled),
{
    compiled.as_str()
}

/// Calls `Regex::replace_all` with a replacement text. The compiled pattern
/// and the two arguments decide the result, which the contract names.
#[verifier::external_body]
pub(crate) fn replace_all(compiled: &regex::Regex, text: &str, replacement: &str) -> (replaced: String)
    ensures
        replaced@ == regex_replace_all(*compiled, text@, replacement@),
{
    compiled.replace_all(text, replacement).into_owned()
}

/// Writes a `regex::Error` as text, through its `Display`. Nothing is promised
/// of the wording.
#[verifier::external_body]
pub(crate) fn regex_error_text(error: &regex::Error) -> (text: String) {
    error.to_string()
}

} // verus!
