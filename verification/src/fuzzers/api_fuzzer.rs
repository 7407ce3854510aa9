//! APIFuzzer: the log of a test run, one part per test.

use crate::error::{Fault, ProcessingError};
use crate::output::{
    all_or_first_error, all_wf, case_views, lemma_all_or_first_error_start,
    lemma_all_or_first_error_step, lemma_first_error_stays, outcome_view, outcomes_view,
    ErrorKind, FailureKind, ResultView, TestCase, TestCaseView,
};
use crate::pattern::{Expression, 
    captured_status, captures, compiled, found_view, group_text, regex_captures, regex_compiles,
    regex_split, status_in, text_of, Group, GroupView,
};
use crate::text::{contains, occurs_in, views};
use crate::web::{normalized_path, url_path};
use vstd::prelude::*;

verus! {

/// The line that opens a test.
pub const TEST_CASE: &'static str = r"[0-9]+ \[INFO\] kitty: Current test: [0-9]+";

/// The URL of a request with path parameters, in group 1.
pub const PATH_PARAMETERS: &'static str = r"[0-9]+ \[INFO\] kitty: Compiled url in (.+?), out:";

/// A request: its method in group 1, its URL up to the query string in group 2.
pub const URL: &'static str = r"[0-9]+ \[INFO\] kitty: Request URL : b'(\w+?)' (.+?)[\r?]";

/// The method of a request, in group 1.
pub const METHOD: &'static str = r"[0-9]+ \[INFO\] kitty: Request URL : b'(\w+?)'";

/// A status code that was not expected, in group 1.
pub const STATUS_CODE: &'static str = r"is not in the expected list:', ([0-9]+?)\)";

pub const CURL_ERROR: &'static str = "pycurl.error: (3, '')";

/// Whether the regex engine accepts the parser's expressions.
pub open spec fn expressions_compile() -> bool {
    &&& regex_compiles(TEST_CASE@)
    &&& regex_compiles(PATH_PARAMETERS@)
    &&& regex_compiles(URL@)
    &&& regex_compiles(METHOD@)
    &&& regex_compiles(STATUS_CODE@)
}

/// What the expressions find in one part of the log.
pub ghost struct Found {
    pub path_parameters: Option<Seq<Option<GroupView>>>,
    pub method: Option<Seq<Option<GroupView>>>,
    pub url: Option<Seq<Option<GroupView>>>,
    pub status_code: Option<Seq<Option<GroupView>>>,
}

/// The request of a test as `(method, URL)`. Where the URL has path parameters, the
/// compiled URL is taken and the method stands on the request line; else both stand on the
/// request line.
pub open spec fn request_of(found: Found) -> Option<(Seq<char>, Seq<char>)> {
    match found.path_parameters {
        Some(compiled) => match (found.method, group_text(compiled, 1)) {
            (Some(line), Some(url)) => match group_text(line, 1) {
                Some(method) => Some((method, url)),
                None => None,
            },
            _ => None,
        },
        None => match found.url {
            Some(line) => match (group_text(line, 1), group_text(line, 2)) {
                (Some(method), Some(url)) => Some((method, url)),
                _ => None,
            },
            None => None,
        },
    }
}

/// The outcome of a test, by the first rule that applies: the engine's HTTP client failed;
/// the status code was not expected; else the test passed.
pub open spec fn verdict(part: Seq<char>, found: Found) -> Result<ResultView, Fault> {
    if occurs_in(part, CURL_ERROR@) {
        Ok(ResultView::Error { kind: ErrorKind::Internal })
    } else if found.status_code is Some {
        match captured_status(found.status_code->0, 1) {
            Some(status_code) => Ok(
                ResultView::Failure { kind: FailureKind::UnexpectedStatusCode { status_code } },
            ),
            None => Err(Fault::Malformed),
        }
    } else {
        Ok(ResultView::Pass)
    }
}

/// The test case of one part of the log: its request, the URL reduced to its path, with the
/// verdict. A part without a request is malformed, and a URL that is none is refused as
/// such.
pub open spec fn classified(part: Seq<char>, found: Found) -> Result<TestCaseView, Fault> {
    match request_of(found) {
        Some((method, url)) => match url_path(url) {
            Some(path) => match verdict(part, found) {
                Ok(result) => Ok(TestCaseView::at(method, path, result)),
                Err(error) => Err(error),
            },
            None => Err(Fault::Url),
        },
        None => Err(Fault::Malformed),
    }
}

/// The test case of one part of the log.
pub open spec fn parsed_one(part: Seq<char>) -> Result<TestCaseView, Fault> {
    classified(
        part,
        Found {
            path_parameters: regex_captures(PATH_PARAMETERS@, part),
            method: regex_captures(METHOD@, part),
            url: regex_captures(URL@, part),
            status_code: regex_captures(STATUS_CODE@, part),
        },
    )
}

/// The outcome of each part.
pub open spec fn part_outcomes(parts: Seq<Seq<char>>) -> Seq<Result<TestCaseView, Fault>> {
    parts.map_values(|part: Seq<char>| parsed_one(part))
}

/// The test cases of a test run: the log is cut at the lines that open a test, and every
/// part is a test case.
pub open spec fn processed_stdout(content: Seq<char>) -> Result<Seq<TestCaseView>, Fault> {
    if expressions_compile() {
        all_or_first_error(part_outcomes(regex_split(TEST_CASE@, content)))
    } else {
        Err(Fault::Pattern)
    }
}

/// What the expressions found in one part of the log.
pub struct Captured {
    pub path_parameters: Option<Vec<Option<Group>>>,
    pub method: Option<Vec<Option<Group>>>,
    pub url: Option<Vec<Option<Group>>>,
    pub status_code: Option<Vec<Option<Group>>>,
}

impl View for Captured {
    type V = Found;

    open spec fn view(&self) -> Found {
        Found {
            path_parameters: found_view(self.path_parameters),
            method: found_view(self.method),
            url: found_view(self.url),
            status_code: found_view(self.status_code),
        }
    }
}

/// The request of a test as `(method, URL)`.
pub fn request<'a>(found: &'a Captured) -> (endpoint: Option<(&'a str, &'a str)>)
    ensures
        endpoint is Some == request_of(found@) is Some,
        endpoint matches Some((method, url)) ==> request_of(found@) == Some((method@, url@)),
{
    match &found.path_parameters {
        Some(compiled) => match (&found.method, text_of(compiled, 1)) {
            (Some(line), Some(url)) => match text_of(line, 1) {
                Some(method) => Some((method, url)),
                None => None,
            },
            _ => None,
        },
        None => match &found.url {
            Some(line) => match (text_of(line, 1), text_of(line, 2)) {
                (Some(method), Some(url)) => Some((method, url)),
                _ => None,
            },
            None => None,
        },
    }
}

/// The test case of one part of the log, given what the expressions found in it.
pub fn classify(part: &str, found: &Captured) -> (outcome: Result<TestCase, ProcessingError>)
    ensures
        outcome_view(outcome) == classified(part@, found@),
        outcome matches Ok(c) ==> c.wf(),
{
    let (method, url) = match request(found) {
        Some(endpoint) => endpoint,
        None => { return Err(ProcessingError::Malformed); },
    };
    let path = normalized_path(url)?;
    if contains(part, CURL_ERROR) {
        Ok(TestCase::error(Some(method.to_owned()), Some(path), ErrorKind::Internal))
    } else if let Some(groups) = &found.status_code {
        match status_in(groups, 1) {
            Some(status_code) => Ok(
                TestCase::unexpected_status_code(method.to_owned(), path, status_code),
            ),
            None => Err(ProcessingError::Malformed),
        }
    } else {
        Ok(TestCase::pass(method.to_owned(), path))
    }
}

/// The compiled expressions of this parser.
pub struct Patterns {
    pub test_case: Expression,
    pub path_parameters: Expression,
    pub url: Expression,
    pub method: Expression,
    pub status_code: Expression,
}

impl Patterns {
    /// Each expression is compiled from its source text.
    pub open spec fn wf(&self) -> bool {
        &&& expressions_compile()
        &&& self.test_case@ == TEST_CASE@
        &&& self.path_parameters@ == PATH_PARAMETERS@
        &&& self.url@ == URL@
        &&& self.method@ == METHOD@
        &&& self.status_code@ == STATUS_CODE@
    }

    /// Compiles the expressions.
    pub fn new() -> (patterns: Result<Patterns, ProcessingError>)
        ensures
            patterns is Ok == expressions_compile(),
            patterns matches Ok(p) ==> p.wf(),
            patterns matches Err(error) ==> error.fault() == Fault::Pattern,
    {
        let test_case = compiled(TEST_CASE)?;
        let path_parameters = compiled(PATH_PARAMETERS)?;
        let url = compiled(URL)?;
        let method = compiled(METHOD)?;
        let status_code = compiled(STATUS_CODE)?;
        Ok(Patterns { test_case, path_parameters, url, method, status_code })
    }
}

/// The test case of one part of the log.
pub fn parse_one(patterns: &Patterns, part: &str) -> (outcome: Result<TestCase, ProcessingError>)
    requires
        patterns.wf(),
    ensures
        outcome_view(outcome) == parsed_one(part@),
        outcome matches Ok(c) ==> c.wf(),
{
    let found = Captured {
        path_parameters: captures(&patterns.path_parameters, part),
        method: captures(&patterns.method, part),
        url: captures(&patterns.url, part),
        status_code: captures(&patterns.status_code, part),
    };
    classify(part, &found)
}

/// The test cases of a test run.
#[verifier::loop_isolation(false)]
pub fn process_stdout(content: &str) -> (cases: Result<Vec<TestCase>, ProcessingError>)
    ensures
        outcomes_view(cases) == processed_stdout(content@),
        cases matches Ok(c) ==> all_wf(c@),
{
    let patterns = Patterns::new()?;
    let parts = crate::pattern::split(&patterns.test_case, content);
    let ghost outcomes = part_outcomes(views(parts@));
    let mut cases: Vec<TestCase> = Vec::new();
    let mut at: usize = 0;
    proof {
        lemma_all_or_first_error_start(outcomes);
        assert(case_views(cases@) =~= Seq::empty());
    }
    while at < parts.len()
        invariant
            at <= parts.len(),
            all_or_first_error(outcomes.take(at as int)) == Ok::<Seq<TestCaseView>, Fault>(
                case_views(cases@),
            ),
            all_wf(cases@),
        decreases parts.len() - at,
    {
        proof {
            lemma_all_or_first_error_step(outcomes, at as int);
            assert(views(parts@)[at as int] == parts@[at as int]@);
        }
        let ghost before = case_views(cases@);
        match parse_one(&patterns, parts[at]) {
            Ok(case) => {
                cases.push(case);
                assert(case_views(cases@) =~= before.push(case@));
            },
            Err(error) => {
                proof {
                    lemma_first_error_stays(outcomes, at + 1);
                }
                return Err(error);
            },
        }
        at = at + 1;
    }
    assert(outcomes.take(at as int) =~= outcomes);
    Ok(cases)
}

} // verus!
