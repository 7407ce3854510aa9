//! Glob patterns over paths.

use vstd::prelude::*;

verus! {

/// `globset::GlobSet`: a compiled set of glob patterns.
#[verifier::external_type_specification]
#[verifier::external_body]
pub struct ExGlobSet(globset::GlobSet);

/// `globset::Error`: why a pattern is no glob.
#[verifier::external_type_specification]
#[verifier::external_body]
pub struct ExGlobError(globset::Error);

/// The longest pattern that is handed to the glob engine, in characters. It is far longer
/// than any path, and far shorter than what the engine's own tables can index.
pub const LONGEST_PATTERN: usize = 65536;

/// The most opening braces in a pattern that is handed to the glob engine. The engine
/// compiles no alternatives that are nested deeper than this, but its reader follows a
/// nesting to any depth before it finds that out.
pub const MOST_BRACES: usize = 250;

/// Whether a pattern is within the limits under which it is handed to the glob engine.
pub open spec fn within_limits(pattern: Seq<char>) -> bool {
    pattern.len() <= LONGEST_PATTERN && crate::text::occurrences(pattern, "{"@) <= MOST_BRACES
}

/// A matcher for one glob pattern. Only `build` makes one, with the engine's default
/// options, so that a matcher's answers are those of its pattern.
pub struct Matcher {
    source: String,
    set: globset::GlobSet,
}

impl View for Matcher {
    type V = Seq<char>;

    /// The pattern that the matcher was built from.
    closed spec fn view(&self) -> Seq<char> {
        self.source@
    }
}

/// Whether the glob engine accepts this pattern with its default options: `Glob::new`
/// parses it and `GlobSetBuilder::build` compiles it.
pub uninterp spec fn glob_compiles(pattern: Seq<char>) -> bool;

/// Whether the pattern, compiled with the engine's default options, matches the path, taken
/// as it stands with `/` between its components: the answer of `GlobSet::is_match` for the
/// set of this one pattern.
pub uninterp spec fn glob_matches(pattern: Seq<char>, path: Seq<char>) -> bool;

/// `Glob::new`, then `GlobSetBuilder::add` and `GlobSetBuilder::build`: a matcher for the
/// one pattern, or the engine's report of why the pattern is malformed or cannot be
/// compiled. The matcher keeps the pattern's text.
#[verifier::external_body]
pub(crate) fn build(pattern: &str) -> (built: Result<Matcher, globset::Error>)
    requires
        within_limits(pattern@),
    ensures
        built is Ok == glob_compiles(pattern@),
        built matches Ok(matcher) ==> matcher@ == pattern@,
{
    let glob = globset::Glob::new(pattern)?;
    let set = globset::GlobSetBuilder::new().add(glob).build()?;
    Ok(Matcher { source: pattern.to_owned(), set })
}

/// `GlobSet::is_match`: whether the pattern matches the path.
#[verifier::external_body]
pub(crate) fn path_matches(matcher: &Matcher, path: &str) -> (matched: bool)
    ensures
        matched == glob_matches(matcher@, path@),
{
    matcher.set.is_match(path)
}

/// `globset::Error` as `Display` writes it: the engine's words for why a pattern is refused.
#[verifier::external_body]
pub(crate) fn words(error: &globset::Error) -> (text: String) {
    error.to_string()
}

impl Matcher {
    /// The pattern that the matcher was built from.
    pub fn source(&self) -> (pattern: &str)
        ensures
            pattern@ == self@,
    {
        self.source.as_str()
    }
}

} // verus!
