//! What the library takes from other crates, with the contracts it relies on.
use vstd::prelude::*;
use std::cmp::Ordering;

verus! {

#[verifier::external_type_specification]
#[verifier::external_body]
pub struct ExRegex(regex::Regex);

#[verifier::external_type_specification]
#[verifier::external_body]
pub struct ExRegexError(regex::Error);

/// Whether the regex crate compiles `pattern`.
pub uninterp spec fn regex_accepts(pattern: Seq<char>) -> bool;

/// Whether the regex `pattern` matches somewhere in `hay`.
pub uninterp spec fn regex_is_match(pattern: Seq<char>, hay: Seq<char>) -> bool;

/// Whether the version-compare crate reads `s` as a version.
pub uninterp spec fn version_parses(s: Seq<char>) -> bool;

/// How version `a` compares to version `b`, when both are versions.
pub uninterp spec fn version_order(a: Seq<char>, b: Seq<char>) -> Ordering;

/// The lower-case form of `s`, as Unicode defines it.
pub uninterp spec fn lower_of(s: Seq<char>) -> Seq<char>;

/// A compiled regex together with the text it was compiled from. Only
/// `compile_pattern` builds one, so `re` always comes from `source`.
pub(crate) struct Pattern {
    source: String,
    re: regex::Regex,
}

impl View for Pattern {
    type V = Seq<char>;

    closed spec fn view(&self) -> Seq<char> {
        self.source@
    }
}

/// Relies on regex::Regex::new: it fails exactly on the patterns that the
/// crate does not accept, which depends on the pattern alone.
#[verifier::external_body]
pub(crate) fn compile_pattern(p: &str) -> (r: Result<Pattern, regex::Error>)
    ensures
        r is Ok <==> regex_accepts(p@),
        r matches Ok(pat) ==> pat@ == p@,
{
    match regex::Regex::new(p) {
        Ok(re) => Ok(Pattern { source: p.to_string(), re }),
        Err(e) => Err(e),
    }
}

impl Pattern {
    /// Relies on regex::Regex::is_match: whether the regex matches anywhere
    /// in the haystack.
    #[verifier::external_body]
    pub(crate) fn is_match(&self, hay: &str) -> (r: bool)
        ensures
            r == regex_is_match(self@, hay@),
    {
        self.re.is_match(hay)
    }
}

/// Relies on version_compare::Version::from: whether `s` reads as a version.
#[verifier::external_body]
pub(crate) fn is_version(s: &str) -> (r: bool)
    ensures
        r == version_parses(s@),
{
    version_compare::Version::from(s).is_some()
}

/// Relies on version_compare::compare: it reads both strings with
/// `Version::from`, fails when either does not read, and otherwise answers
/// `Lt`, `Eq` or `Gt`.
#[verifier::external_body]
pub(crate) fn compare_versions(a: &str, b: &str) -> (r: Option<Ordering>)
    ensures
        r is Some <==> (version_parses(a@) && version_parses(b@)),
        r is Some ==> r == Some(version_order(a@, b@)),
{
    match version_compare::compare(a, b) {
        Ok(version_compare::Cmp::Lt) => Some(Ordering::Less),
        Ok(version_compare::Cmp::Eq) => Some(Ordering::Equal),
        Ok(version_compare::Cmp::Gt) => Some(Ordering::Greater),
        Ok(_) => None,
        Err(()) => None,
    }
}

/// Relies on str::to_lowercase: the result depends on the characters alone.
#[verifier::external_body]
pub(crate) fn lowercase(s: &str) -> (r: String)
    ensures
        r@ == lower_of(s@),
{
    s.to_lowercase()
}

} // verus!
