//! Regular expressions, evaluated by the `regex` crate.
//!
//! A pattern is held as its source text. What the crate makes of a pattern and
//! a text is a function of the two alone; the three names below stand for it in
//! contracts.

use vstd::prelude::*;

verus! {

/// `regex::Error`, the error with which `regex` refuses a pattern. Nothing is
/// claimed of its values.
#[verifier::external_type_specification]
#[verifier::external_body]
pub struct ExRegexError(regex::Error);

/// Whether `Regex::new` accepts `pattern`.
pub uninterp spec fn regex_compiles(pattern: Seq<char>) -> bool;

/// What `Regex::is_match` answers for the compiled `pattern` on `text`: whether
/// the pattern matches anywhere in the text.
pub uninterp spec fn regex_is_match(pattern: Seq<char>, text: Seq<char>) -> bool;

/// What `Regex::find` answers for the compiled `pattern` on `text`: the byte
/// offset at which the leftmost match begins, if there is a match.
pub uninterp spec fn regex_find_start(pattern: Seq<char>, text: Seq<char>) -> Option<usize>;

/// Calls `Regex::new` on the pattern and `Regex::is_match` on the text.
///
/// Claimed: whether the pattern compiles depends on the pattern alone, and the
/// answer of a compiled pattern on the pattern and the text alone.
#[verifier::external_body]
fn regex_search(pattern: &str, text: &str) -> (found: Result<bool, regex::Error>)
    ensures
        found is Ok <==> regex_compiles(pattern@),
        found matches Ok(matched) ==> matched == regex_is_match(pattern@, text@),
{
    match regex::Regex::new(pattern) {
        Ok(compiled) => Ok(compiled.is_match(text)),
        Err(e) => Err(e),
    }
}

/// Calls `Regex::new` on the pattern and `Regex::find` on the text, and keeps
/// where the match starts.
///
/// Claimed: whether the pattern compiles depends on the pattern alone, and the
/// start of the leftmost match on the pattern and the text alone.
#[verifier::external_body]
fn regex_find(pattern: &str, text: &str) -> (found: Result<Option<usize>, regex::Error>)
    ensures
        found is Ok <==> regex_compiles(pattern@),
        found matches Ok(start) ==> start == regex_find_start(pattern@, text@),
{
    match regex::Regex::new(pattern) {
        Ok(compiled) => match compiled.find(text) {
            Some(leftmost) => Ok(Some(leftmost.start())),
            None => Ok(None),
        },
        Err(e) => Err(e),
    }
}

/// Whether `pattern` matches somewhere in `text`. A pattern that does not
/// compile matches nothing.
pub open spec fn pattern_matches(pattern: Seq<char>, text: Seq<char>) -> bool {
    regex_compiles(pattern) && regex_is_match(pattern, text)
}

/// Whether `text` begins with a match of `pattern`: the leftmost match starts
/// with the text. A pattern that does not compile matches nothing.
pub open spec fn pattern_matches_prefix(pattern: Seq<char>, text: Seq<char>) -> bool {
    regex_compiles(pattern) && begins_text(regex_find_start(pattern, text))
}

/// Whether a search found a match that starts where the text starts.
pub open spec fn begins_text(start: Option<usize>) -> bool {
    start == Some(0usize)
}

/// Whether a search found a match that starts where the text starts.
pub fn match_begins_text(start: Option<usize>) -> (anchored: bool)
    ensures
        anchored == begins_text(start),
{
    match start {
        Some(at) => at == 0,
        None => false,
    }
}

/// Whether the pattern compiles.
pub fn is_valid_pattern(pattern: &str) -> (valid: bool)
    ensures
        valid == regex_compiles(pattern@),
{
    match regex_search(pattern, "") {
        Ok(_) => true,
        Err(_) => false,
    }
}

/// Whether `pattern` matches somewhere in `host`.
pub fn host_matches(pattern: &str, host: &str) -> (matched: bool)
    ensures
        matched == pattern_matches(pattern@, host@),
{
    match regex_search(pattern, host) {
        Ok(matched) => matched,
        Err(_) => false,
    }
}

/// Whether `path` begins with a match of `pattern`.
pub fn path_prefix_matches(pattern: &str, path: &str) -> (matched: bool)
    ensures
        matched == pattern_matches_prefix(pattern@, path@),
{
    match regex_find(pattern, path) {
        Ok(start) => match_begins_text(start),
        Err(_) => false,
    }
}

/// The source of the host pattern of a permission that names none.
pub open spec fn default_host_spec() -> Seq<char> {
    "^.*$"@
}

/// The host pattern of a permission that names none.
pub fn default_host() -> (pattern: String)
    ensures
        pattern@ == default_host_spec(),
{
    "^.*$".to_owned()
}

} // verus!
