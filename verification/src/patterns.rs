use vstd::prelude::*;

verus! {

/// Whether the pattern compiler accepts the pattern string. The answer is a
/// function of the pattern alone.
pub uninterp spec fn pattern_compiles(pat: Seq<char>) -> bool;

/// Whether the pattern matches somewhere in the text. Meaningful only for
/// patterns that compile; the answer is a function of pattern and text alone.
pub uninterp spec fn regex_matches(pat: Seq<char>, text: Seq<char>) -> bool;

/// A pattern constrains a key when it compiles and matches it. Patterns that
/// reach a compiled validator always compile, so the first conjunct is then
/// settled.
pub open spec fn key_matches(pat: Seq<char>, key: Seq<char>) -> bool {
    pattern_compiles(pat) && regex_matches(pat, key)
}

/// Relies on regex::Regex::new: whether a pattern compiles (under the default
/// builder with its fixed default size limit) depends on the pattern alone.
#[verifier::external_body]
pub(crate) fn compiles_pattern(pat: &str) -> (r: bool)
    ensures
        r == pattern_compiles(pat@),
{
    regex::Regex::new(pat).is_ok()
}

/// Relies on regex::Regex::new and regex::Regex::is_match: compiling a
/// pattern is deterministic, and what the compiled pattern matches depends on
/// the pattern and the text alone, so the result is a function of the two
/// strings. A pattern that does not compile matches nothing.
#[verifier::external_body]
pub(crate) fn pattern_matches(pat: &str, text: &str) -> (r: bool)
    ensures
        pattern_compiles(pat@) ==> r == regex_matches(pat@, text@),
        !pattern_compiles(pat@) ==> !r,
{
    match regex::Regex::new(pat) {
        Ok(re) => re.is_match(text),
        Err(_) => false,
    }
}

} // verus!
