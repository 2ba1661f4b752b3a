//! Regular-expression matching with the `regex` crate.

use vstd::prelude::*;

use regex::Regex;

verus! {

#[verifier::external_type_specification]
#[verifier::external_body]
pub struct ExRegex(Regex);

/// Whether `regex::Regex::new` accepts `pattern`.
pub uninterp spec fn regex_valid(pattern: Seq<char>) -> bool;

/// What `regex::Regex::is_match` answers for a regex compiled from
/// `pattern` on `haystack`.
pub uninterp spec fn regex_match(pattern: Seq<char>, haystack: Seq<char>) -> bool;

/// A compiled regular expression together with its source text. Only
/// [`compile`] makes one, so `re` is always compiled from `source`.
pub struct Pattern {
    source: String,
    re: Regex,
}

impl Pattern {
    pub closed spec fn source(&self) -> Seq<char> {
        self.source@
    }
}

/// `regex::Regex::new`: `None` when the pattern is rejected.
#[verifier::external_body]
pub fn compile(pattern: &str) -> (r: Option<Pattern>)
    ensures
        r is Some <==> regex_valid(pattern@),
        r matches Some(p) ==> p.source() == pattern@,
{
    match Regex::new(pattern) {
        Ok(re) => Some(Pattern { source: String::from(pattern), re }),
        Err(_) => None,
    }
}

/// `regex::Regex::is_match`: whether the pattern matches somewhere in
/// `haystack`.
#[verifier::external_body]
pub fn is_match(p: &Pattern, haystack: &str) -> (b: bool)
    ensures
        b == regex_match(p.source(), haystack@),
{
    p.re.is_match(haystack)
}

} // verus!
