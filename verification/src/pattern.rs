//! Regular expressions: compiling one, and asking it about a text.
//!
//! What an expression matches is not restated here. Each answer of the regex engine has a
//! name, a function of the expression's source text and of the text searched, and the
//! parsers' contracts are written over those names.

use crate::error::{Fault, ProcessingError};
use crate::output::valid_status;
use crate::text::{parse_u16, parsed_number};
use vstd::prelude::*;

verus! {

/// `regex::Regex`: a compiled regular expression.
#[verifier::external_type_specification]
#[verifier::external_body]
pub struct ExRegex(regex::Regex);

/// `regex::Error`: why an expression does not compile.
#[verifier::external_type_specification]
#[verifier::external_body]
pub struct ExRegexError(regex::Error);

/// A compiled regular expression. Only `compiled` makes one, with the engine's default
/// options, so that an expression's answers are those of its source text.
pub struct Expression {
    source: String,
    compiled: regex::Regex,
}

impl View for Expression {
    type V = Seq<char>;

    /// The source text that the expression was compiled from.
    closed spec fn view(&self) -> Seq<char> {
        self.source@
    }
}

impl Expression {
    /// The source text that the expression was compiled from.
    pub fn source(&self) -> (pattern: &str)
        ensures
            pattern@ == self@,
    {
        self.source.as_str()
    }
}

/// One capture group of a match: where it stands in the text searched, in bytes, and what
/// it holds.
#[derive(Debug, Clone, PartialEq, Eq)]
pub struct Group {
    pub start: usize,
    pub end: usize,
    pub text: String,
}

/// A capture group as a plain value.
pub ghost struct GroupView {
    pub start: int,
    pub end: int,
    pub text: Seq<char>,
}

impl View for Group {
    type V = GroupView;

    open spec fn view(&self) -> GroupView {
        GroupView { start: self.start as int, end: self.end as int, text: self.text@ }
    }
}

/// The groups of one match as plain values; a group that took no part in the match is `None`.
pub open spec fn groups_view(groups: Seq<Option<Group>>) -> Seq<Option<GroupView>> {
    groups.map_values(
        |group: Option<Group>|
            match group {
                Some(group) => Some(group@),
                None => None,
            },
    )
}

/// The groups of a match that may be missing, as plain values.
pub open spec fn found_view(found: Option<Vec<Option<Group>>>) -> Option<Seq<Option<GroupView>>> {
    match found {
        Some(groups) => Some(groups_view(groups@)),
        None => None,
    }
}

/// The groups of each of several matches as plain values.
pub open spec fn matches_view(found: Seq<Vec<Option<Group>>>) -> Seq<Seq<Option<GroupView>>> {
    found.map_values(|groups: Vec<Option<Group>>| groups_view(groups@))
}

/// Whether `Regex::new` accepts this source text.
pub uninterp spec fn regex_compiles(pattern: Seq<char>) -> bool;

/// Whether the expression matches anywhere in the text: the answer of `Regex::is_match`.
pub uninterp spec fn regex_is_match(pattern: Seq<char>, text: Seq<char>) -> bool;

/// The parts of the text that the expression's matches leave, in order: what `Regex::split`
/// yields.
pub uninterp spec fn regex_split(pattern: Seq<char>, text: Seq<char>) -> Seq<Seq<char>>;

/// The capture groups of the leftmost match, group 0 being the whole match, or `None`
/// where the expression does not match: what `Regex::captures` returns.
pub uninterp spec fn regex_captures(pattern: Seq<char>, text: Seq<char>) -> Option<
    Seq<Option<GroupView>>,
>;

/// The capture groups of each successive non-overlapping match: what `Regex::captures_iter`
/// yields.
pub uninterp spec fn regex_captures_all(pattern: Seq<char>, text: Seq<char>) -> Seq<
    Seq<Option<GroupView>>,
>;

/// `Regex::new`: compiles the expression, or reports why it cannot. The compiled expression
/// keeps its source text.
#[verifier::external_body]
pub(crate) fn compile(pattern: &str) -> (compiled: Result<Expression, regex::Error>)
    ensures
        compiled is Ok == regex_compiles(pattern@),
        compiled matches Ok(re) ==> re@ == pattern@,
{
    regex::Regex::new(pattern).map(|compiled| Expression { source: pattern.to_owned(), compiled })
}

/// `regex::Error` as `Display` writes it: the engine's words for why an expression does
/// not compile.
#[verifier::external_body]
pub(crate) fn words(error: &regex::Error) -> (text: String) {
    error.to_string()
}

/// `Regex::is_match`: whether the expression matches anywhere in the text.
#[verifier::external_body]
pub(crate) fn is_match(re: &Expression, text: &str) -> (found: bool)
    ensures
        found == regex_is_match(re@, text@),
{
    re.compiled.is_match(text)
}

/// `Regex::split`: the parts of the text between the matches of the expression.
#[verifier::external_body]
pub(crate) fn split<'a>(re: &Expression, text: &'a str) -> (parts: Vec<&'a str>)
    ensures
        crate::text::views(parts@) == regex_split(re@, text@),
{
    re.compiled.split(text).collect()
}

/// `Regex::captures`: the capture groups of the leftmost match, each with its byte offsets
/// (`Match::start`, `Match::end`) and its text (`Match::as_str`).
#[verifier::external_body]
pub(crate) fn captures(re: &Expression, text: &str) -> (found: Option<Vec<Option<Group>>>)
    ensures
        found_view(found) == regex_captures(re@, text@),
{
    re.compiled.captures(text).map(
        |found|
            found.iter().map(
                |group|
                    group.map(
                        |m| Group { start: m.start(), end: m.end(), text: m.as_str().to_owned() },
                    ),
            ).collect(),
    )
}

/// `Regex::captures_iter`: the capture groups of every match, from the left.
#[verifier::external_body]
pub(crate) fn captures_all(re: &Expression, text: &str) -> (found: Vec<Vec<Option<Group>>>)
    ensures
        matches_view(found@) == regex_captures_all(re@, text@),
{
    re.compiled.captures_iter(text).map(
        |found|
            found.iter().map(
                |group|
                    group.map(
                        |m| Group { start: m.start(), end: m.end(), text: m.as_str().to_owned() },
                    ),
            ).collect(),
    ).collect()
}

/// The valid status code that a text writes in decimal.
pub open spec fn status_written(digits: Seq<char>) -> Option<u16> {
    match parsed_number(digits, 65536) {
        Some(status_code) => if valid_status(status_code as u16) {
            Some(status_code as u16)
        } else {
            None
        },
        None => None,
    }
}

/// The valid status code in group `index` of a match.
pub open spec fn captured_status(groups: Seq<Option<GroupView>>, index: int) -> Option<u16> {
    match group_text(groups, index) {
        Some(digits) => status_written(digits),
        None => None,
    }
}

/// The valid status code that a text writes in decimal.
pub fn read_status(digits: &str) -> (status_code: Option<u16>)
    ensures
        status_code == status_written(digits@),
{
    let status_code = parse_u16(digits)?;
    if 100 <= status_code && status_code <= 999 {
        Some(status_code)
    } else {
        None
    }
}

/// The valid status code in group `index` of a match.
pub fn status_in(groups: &Vec<Option<Group>>, index: usize) -> (status_code: Option<u16>)
    ensures
        status_code == captured_status(groups_view(groups@), index as int),
{
    let digits = text_of(groups, index)?;
    read_status(digits)
}

/// Compiles an expression of the library's own.
pub fn compiled(pattern: &str) -> (re: Result<Expression, ProcessingError>)
    ensures
        re is Ok == regex_compiles(pattern@),
        re matches Ok(re) ==> re@ == pattern@,
        re matches Err(error) ==> error.fault() == Fault::Pattern,
{
    match compile(pattern) {
        Ok(re) => Ok(re),
        Err(error) => Err(ProcessingError::Pattern(words(&error))),
    }
}

/// The text of group `index`, where the match has such a group and it took part.
pub open spec fn group_text(groups: Seq<Option<GroupView>>, index: int) -> Option<Seq<char>> {
    if 0 <= index < groups.len() {
        match groups[index] {
            Some(group) => Some(group.text),
            None => None,
        }
    } else {
        None
    }
}

/// The text of group `index` of a match.
pub fn text_of(groups: &Vec<Option<Group>>, index: usize) -> (text: Option<&str>)
    ensures
        text is Some == group_text(groups_view(groups@), index as int) is Some,
        text matches Some(t) ==> group_text(groups_view(groups@), index as int) == Some(t@),
{
    if index < groups.len() {
        match &groups[index] {
            Some(group) => Some(group.text.as_str()),
            None => None,
        }
    } else {
        None
    }
}

} // verus!
