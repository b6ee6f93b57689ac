//! Regular expressions.

use vstd::prelude::*;

verus! {

/// `regex::Regex`, a compiled regular expression.
#[verifier::external_type_specification]
#[verifier::external_body]
pub struct ExRegex(regex::Regex);

/// The pattern that a `regex::Regex` was compiled from.
pub uninterp spec fn pattern_of(regex: regex::Regex) -> Seq<char>;

/// Why the `regex` crate refuses a pattern; nothing where it accepts it.
pub uninterp spec fn pattern_error(pattern: Seq<char>) -> Option<Seq<char>>;

/// Whether a pattern matches somewhere in a text.
pub uninterp spec fn pattern_matches(pattern: Seq<char>, text: Seq<char>) -> bool;

/// `regex::Regex::new`: the compiled pattern, or the message of the error.
#[verifier::external_body]
pub(crate) fn compile(pattern: &str) -> (regex: Result<regex::Regex, String>)
    ensures
        match regex {
            Ok(r) => pattern_error(pattern@) is None && pattern_of(r) == pattern@,
            Err(e) => pattern_error(pattern@) == Some(e@),
        },
{
    regex::Regex::new(pattern).map_err(|e| e.to_string())
}

/// `regex::Regex::is_match`: whether the pattern matches somewhere in the text.
#[verifier::external_body]
pub(crate) fn is_match(regex: &regex::Regex, text: &str) -> (found: bool)
    ensures
        found == pattern_matches(pattern_of(*regex), text@),
{
    regex.is_match(text)
}

/// The pattern of a condition that may be absent.
pub open spec fn condition(regex: Option<regex::Regex>) -> Option<Seq<char>> {
    match regex {
        Some(r) => Some(pattern_of(r)),
        None => None,
    }
}

/// The characters of a text that may be absent.
pub open spec fn opt_text(text: Option<String>) -> Option<Seq<char>> {
    match text {
        Some(t) => Some(t@),
        None => None,
    }
}

/// Why a condition that may be absent is refused; nothing where it is absent or accepted.
pub open spec fn condition_error(pattern: Option<Seq<char>>) -> Option<Seq<char>> {
    match pattern {
        Some(p) => pattern_error(p),
        None => None,
    }
}

/// Whether a text meets a condition; an absent one is met by every text.
pub open spec fn meets(pattern: Option<Seq<char>>, text: Seq<char>) -> bool {
    match pattern {
        Some(p) => pattern_matches(p, text),
        None => true,
    }
}

/// Compiles a condition that may be absent.
pub(crate) fn compile_condition(pattern: &Option<String>) -> (regex: Result<
    Option<regex::Regex>,
    String,
>)
    ensures
        match regex {
            Ok(r) => condition_error(opt_text(*pattern)) is None && condition(r) == opt_text(
                *pattern,
            ),
            Err(e) => condition_error(opt_text(*pattern)) == Some(e@),
        },
{
    match pattern {
        Some(p) => match compile(p.as_str()) {
            Ok(r) => Ok(Some(r)),
            Err(e) => Err(e),
        },
        None => Ok(None),
    }
}

/// Whether a text meets a compiled condition.
pub(crate) fn meets_condition(regex: &Option<regex::Regex>, text: &str) -> (met: bool)
    ensures
        met == meets(condition(*regex), text@),
{
    match regex {
        Some(r) => is_match(r, text),
        None => true,
    }
}

} // verus!
