//! Regular expressions, through the `regex` crate.
use vstd::prelude::*;

verus! {

/// An error of the `regex` crate: the pattern did not compile.
#[verifier::external_type_specification]
#[verifier::external_body]
pub struct ExRegexError(regex::Error);

/// A compiled regular expression of the `regex` crate.
#[verifier::external_type_specification]
#[verifier::external_body]
pub struct ExRegex(regex::Regex);

/// Whether `regex::Regex::new` accepts the pattern (it refuses bad syntax and
/// patterns that exceed the default size limit).
pub uninterp spec fn regex_compiles(pattern: Seq<char>) -> bool;

/// What `regex::Regex::is_match` answers for the regex compiled from
/// `pattern`: whether it matches anywhere in the text.
pub uninterp spec fn regex_finds(pattern: Seq<char>, haystack: Seq<char>) -> bool;

/// What `regex::Regex::captures` followed by `Captures::get(group)` gives
/// for the regex compiled from `pattern`: `None` where it does not match the
/// text; `Some(None)` where it matches but the group takes no part; otherwise
/// the text of the group.
pub uninterp spec fn regex_group(pattern: Seq<char>, haystack: Seq<char>, group: nat) -> Option<
    Option<Seq<char>>,
>;

/// The view of an optional string.
pub open spec fn opt_view(s: Option<String>) -> Option<Seq<char>> {
    match s {
        Some(t) => Some(t@),
        None => None,
    }
}

/// A regex together with the pattern it was compiled from. Only
/// [`compile_regex`] builds one, so the two always belong together.
pub struct CompiledRegex {
    source: String,
    compiled: regex::Regex,
}

impl CompiledRegex {
    /// The pattern the regex was compiled from.
    pub closed spec fn pattern(&self) -> Seq<char> {
        self.source@
    }
}

/// Calls `regex::Regex::new(pattern)`. Claims: it succeeds exactly where the
/// pattern compiles (named `regex_compiles`), and the result keeps the
/// pattern it was compiled from.
#[verifier::external_body]
pub(crate) fn compile_regex(pattern: &str) -> (r: Result<CompiledRegex, regex::Error>)
    ensures
        r is Ok <==> regex_compiles(pattern@),
        r matches Ok(c) ==> c.pattern() == pattern@,
{
    match regex::Regex::new(pattern) {
        Ok(compiled) => Ok(CompiledRegex { source: pattern.to_string(), compiled }),
        Err(e) => Err(e),
    }
}

impl CompiledRegex {
    /// Calls `regex::Regex::is_match(haystack)`. Claims: the answer is
    /// `regex_finds` of the pattern the regex was compiled from.
    #[verifier::external_body]
    pub(crate) fn is_match(&self, haystack: &str) -> (b: bool)
        ensures
            b == regex_finds(self.pattern(), haystack@),
    {
        self.compiled.is_match(haystack)
    }

    /// Calls `regex::Regex::captures(haystack)` and on a match
    /// `Captures::get(group)`. Claims: the capture is `regex_group` of the
    /// pattern the regex was compiled from.
    #[verifier::external_body]
    pub(crate) fn capture(&self, haystack: &str, group: usize) -> (c: Option<Option<String>>)
        ensures
            regex_group(self.pattern(), haystack@, group as nat) == match c {
                Some(g) => Some(opt_view(g)),
                None => None::<Option<Seq<char>>>,
            },
    {
        match self.compiled.captures(haystack) {
            Some(caps) => Some(caps.get(group).map(|m| m.as_str().to_string())),
            None => None,
        }
    }
}

} // verus!
