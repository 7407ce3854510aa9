//! Schemathesis: a log of JSON events, one per line, and for the stateful mode the output
//! of the test runner.

use crate::error::{Fault, ProcessingError};
use crate::json::{item_views, json_document, read, Json, JsonView};
use crate::output::{
    all_or_first_error, all_wf, case_views, concat_or_first_error, lemma_all_or_first_error_start,
    lemma_all_or_first_error_step, lemma_concat_first_error_stays,
    lemma_concat_or_first_error_start, lemma_concat_or_first_error_step, lemma_first_error_stays,
    outcome_view, outcomes_view, valid_status, ErrorKind, FailureKind, ResultView, TestCase,
    TestCaseView,
};
use crate::pattern::{Expression, 
    captured_status, captures, captures_all, compiled, found_view, group_text, groups_view,
    is_match, matches_view, read_status, regex_captures, regex_captures_all, regex_compiles,
    regex_is_match, status_in, status_written, text_of, Group, GroupView,
};
use crate::text::{
    after_first, behind_first, ascii_uppercase, byte_slice, contains, ends_with, lines, lines_of, occurs_in,
    pieces, same_text, slice_bytes, split, split_ascii_whitespace,
    split_once, to_ascii_uppercase, trim, trimmed, views, words_of,
};
use vstd::prelude::*;

verus! {

/// How a check of a response ended.
#[derive(Debug, Clone, Copy, PartialEq, Eq, Structural)]
pub enum Status {
    /// No fault found.
    Success,
    /// The check found a fault of the API.
    Failure,
    /// The engine itself failed.
    Error,
}

/// How the check ended: the member `value`, one of `success`, `failure` and `error`.
pub open spec fn status_of(check: JsonView) -> Option<Status> {
    match check.member_text("value"@) {
        Some(value) => if value == "success"@ {
            Some(Status::Success)
        } else if value == "failure"@ {
            Some(Status::Failure)
        } else if value == "error"@ {
            Some(Status::Error)
        } else {
            None
        },
        None => None,
    }
}

/// The status code of the response that was checked. The member `response` may be missing
/// or `null`, which is `Some(None)`; else it has a member `status_code` that is a `u16`.
/// Anything else is `None`.
pub open spec fn response_of(check: JsonView) -> Option<Option<u16>> {
    match check.member("response"@) {
        None => Some(None),
        Some(JsonView::Null) => Some(None),
        Some(response) => match response.member("status_code"@) {
            Some(JsonView::Number(Some(status_code))) => if status_code <= u16::MAX {
                Some(Some(status_code as u16))
            } else {
                None
            },
            _ => None,
        },
    }
}

/// A check has a name, says how it ended, and its response is absent or has a status code.
pub open spec fn well_formed_check(check: JsonView) -> bool {
    &&& check.member_text("name"@) is Some
    &&& status_of(check) is Some
    &&& response_of(check) is Some
}

/// What was wrong with the content type, by the member `type` of the check's `context`.
pub open spec fn content_type_failure(check: JsonView) -> FailureKind {
    let detail = match check.member("context"@) {
        Some(context) => context.member_text("type"@),
        None => None,
    };
    if detail == Some("malformed_media_type"@) {
        FailureKind::MalformedMediaType
    } else if detail == Some("missing_content_type"@) {
        FailureKind::MissingContentType
    } else {
        FailureKind::ContentTypeConformance
    }
}

/// The failure that a failed check of this name reports. A check on the status code needs
/// the response's status code, and a valid one.
pub open spec fn failure_of(check: JsonView) -> Result<FailureKind, Fault> {
    let name = check.member_text("name"@)->0;
    let status_code = response_of(check)->0;
    if name == "not_a_server_error"@ {
        match status_code {
            Some(code) => if valid_status(code) {
                Ok(FailureKind::ServerError { status_code: code })
            } else {
                Err(Fault::Malformed)
            },
            None => Err(Fault::Malformed),
        }
    } else if name == "status_code_conformance"@ {
        match status_code {
            Some(code) => if valid_status(code) {
                Ok(FailureKind::UnexpectedStatusCode { status_code: code })
            } else {
                Err(Fault::Malformed)
            },
            None => Err(Fault::Malformed),
        }
    } else if name == "content_type_conformance"@ {
        Ok(content_type_failure(check))
    } else if name == "response_headers_conformance"@ {
        Ok(FailureKind::ResponseHeadersConformance)
    } else if name == "response_schema_conformance"@ {
        Ok(FailureKind::ResponseConformance)
    } else if name == "request_timeout"@ {
        Ok(FailureKind::RequestTimeout)
    } else {
        Err(Fault::Unclassified)
    }
}

/// The test case of one check of a response: an internal error where the engine failed, a
/// pass where the check found nothing, else the failure that the check stands for. A check
/// that is not well formed is malformed input.
pub open spec fn check_outcome(method: Seq<char>, path: Seq<char>, check: JsonView) -> Result<
    TestCaseView,
    Fault,
> {
    if !well_formed_check(check) {
        Err(Fault::Malformed)
    } else {
        match status_of(check)->0 {
            Status::Error => Ok(
                TestCaseView::at(method, path, ResultView::Error { kind: ErrorKind::Internal }),
            ),
            Status::Success => Ok(TestCaseView::at(method, path, ResultView::Pass)),
            Status::Failure => match failure_of(check) {
                Ok(kind) => Ok(TestCaseView::failure(method, path, kind)),
                Err(error) => Err(error),
            },
        }
    }
}

/// The request of an event and the checks made of its response, where the event has the
/// shape of a test result: a member `result` with `method`, `path` and an array `checks`
/// of well-formed checks.
pub open spec fn result_of(event: JsonView) -> Option<(Seq<char>, Seq<char>, Seq<JsonView>)> {
    match event.member("result"@) {
        Some(result) => match (
            result.member_text("method"@),
            result.member_text("path"@),
            result.member("checks"@),
        ) {
            (Some(method), Some(path), Some(JsonView::Array(checks))) => if forall|i: int|
                0 <= i < checks.len() ==> well_formed_check(#[trigger] checks[i]) {
                Some((method, path, checks))
            } else {
                None
            },
            _ => None,
        },
        None => None,
    }
}

/// The outcome of each check of a request.
pub open spec fn check_outcomes(method: Seq<char>, path: Seq<char>, checks: Seq<JsonView>) -> Seq<
    Result<TestCaseView, Fault>,
> {
    checks.map_values(|check: JsonView| check_outcome(method, path, check))
}

/// The test cases of one test result, one for each check and in their order. An event of
/// another shape is malformed.
pub open spec fn parsed_event(event: JsonView) -> Result<Seq<TestCaseView>, Fault> {
    match result_of(event) {
        Some((method, path, checks)) => all_or_first_error(check_outcomes(method, path, checks)),
        None => Err(Fault::Malformed),
    }
}

/// The test cases of one line of the log: those of its event where that is the result of a
/// test, none for any other kind of event.
pub open spec fn parsed_line(line: Seq<char>) -> Result<Seq<TestCaseView>, Fault> {
    match json_document(line) {
        Some(event) => match event.member_text("event_type"@) {
            Some(kind) => if kind == "AfterExecution"@ {
                parsed_event(event)
            } else {
                Ok(Seq::empty())
            },
            None => Err(Fault::Malformed),
        },
        None => Err(Fault::Json),
    }
}

/// The outcome of each line of the log.
pub open spec fn line_outcomes(rows: Seq<Seq<char>>) -> Seq<
    Result<Seq<TestCaseView>, Fault>,
> {
    rows.map_values(|line: Seq<char>| parsed_line(line))
}

/// The test cases of a log of events, in the order of the log.
pub open spec fn processed_debug_output(content: Seq<char>) -> Result<
    Seq<TestCaseView>,
    Fault,
> {
    concat_or_first_error(line_outcomes(lines_of(content)))
}

/// How the check ended.
pub fn status(check: &Json) -> (found: Option<Status>)
    ensures
        found == status_of(check@),
{
    let value = check.get_text("value")?;
    if same_text(value, "success") {
        Some(Status::Success)
    } else if same_text(value, "failure") {
        Some(Status::Failure)
    } else if same_text(value, "error") {
        Some(Status::Error)
    } else {
        None
    }
}

/// The status code of the response that was checked.
pub fn response_status(check: &Json) -> (found: Option<Option<u16>>)
    ensures
        found == response_of(check@),
{
    match check.get("response") {
        None => Some(None),
        Some(Json::Null) => Some(None),
        Some(response) => match response.get("status_code") {
            Some(Json::Number(Some(status_code))) => if *status_code <= 65535 {
                Some(Some(*status_code as u16))
            } else {
                None
            },
            _ => None,
        },
    }
}

/// Whether a check has the members that a check must have.
pub fn is_well_formed(check: &Json) -> (yes: bool)
    ensures
        yes == well_formed_check(check@),
{
    check.get_text("name").is_some() && status(check).is_some() && response_status(
        check,
    ).is_some()
}

/// What was wrong with the content type.
pub fn content_type_kind(check: &Json) -> (kind: FailureKind)
    ensures
        kind == content_type_failure(check@),
{
    let detail = match check.get("context") {
        Some(context) => context.get_text("type"),
        None => None,
    };
    match detail {
        Some(detail) => if same_text(detail, "malformed_media_type") {
            FailureKind::MalformedMediaType
        } else if same_text(detail, "missing_content_type") {
            FailureKind::MissingContentType
        } else {
            FailureKind::ContentTypeConformance
        },
        None => FailureKind::ContentTypeConformance,
    }
}

/// The failure that a failed check reports.
pub fn failure_kind(check: &Json) -> (kind: Result<FailureKind, ProcessingError>)
    requires
        well_formed_check(check@),
    ensures
        crate::error::fault_view(kind) == failure_of(check@),
        kind matches Ok(k) ==> k.wf(),
{
    let name = match check.get_text("name") {
        Some(name) => name,
        None => { return Err(ProcessingError::Malformed); },
    };
    let status_code = match response_status(check) {
        Some(status_code) => status_code,
        None => { return Err(ProcessingError::Malformed); },
    };
    if same_text(name, "not_a_server_error") {
        match status_code {
            Some(code) => if 100 <= code && code <= 999 {
                Ok(FailureKind::ServerError { status_code: code })
            } else {
                Err(ProcessingError::Malformed)
            },
            None => Err(ProcessingError::Malformed),
        }
    } else if same_text(name, "status_code_conformance") {
        match status_code {
            Some(code) => if 100 <= code && code <= 999 {
                Ok(FailureKind::UnexpectedStatusCode { status_code: code })
            } else {
                Err(ProcessingError::Malformed)
            },
            None => Err(ProcessingError::Malformed),
        }
    } else if same_text(name, "content_type_conformance") {
        Ok(content_type_kind(check))
    } else if same_text(name, "response_headers_conformance") {
        Ok(FailureKind::ResponseHeadersConformance)
    } else if same_text(name, "response_schema_conformance") {
        Ok(FailureKind::ResponseConformance)
    } else if same_text(name, "request_timeout") {
        Ok(FailureKind::RequestTimeout)
    } else {
        Err(ProcessingError::Unclassified)
    }
}

/// The test case of one check of the response to a request.
pub fn classify_check(method: &str, path: &str, check: &Json) -> (case: Result<
    TestCase,
    ProcessingError,
>)
    ensures
        outcome_view(case) == check_outcome(method@, path@, check@),
        case matches Ok(c) ==> c.wf(),
{
    if !is_well_formed(check) {
        return Err(ProcessingError::Malformed);
    }
    match status(check) {
        Some(Status::Error) => Ok(
            TestCase::error(Some(method.to_owned()), Some(path.to_owned()), ErrorKind::Internal),
        ),
        Some(Status::Success) => Ok(TestCase::pass(method.to_owned(), path.to_owned())),
        Some(Status::Failure) => {
            let kind = failure_kind(check)?;
            Ok(
                TestCase::new(
                    Some(method.to_owned()),
                    Some(path.to_owned()),
                    crate::output::TestCaseResult::Failure { kind },
                ),
            )
        },
        None => Err(ProcessingError::Malformed),
    }
}

/// Whether every check of a test result is well formed.
pub fn all_well_formed(checks: &Vec<Json>) -> (yes: bool)
    ensures
        yes == forall|i: int|
            0 <= i < checks@.len() ==> well_formed_check(#[trigger] item_views(checks@)[i]),
{
    let mut at: usize = 0;
    while at < checks.len()
        invariant
            at <= checks.len(),
            forall|i: int| 0 <= i < at ==> well_formed_check(#[trigger] item_views(checks@)[i]),
        decreases checks.len() - at,
    {
        if !is_well_formed(&checks[at]) {
            assert(!well_formed_check(item_views(checks@)[at as int]));
            return false;
        }
        at = at + 1;
    }
    true
}

/// The request of an event and the checks made of its response.
pub fn result<'a>(event: &'a Json) -> (found: Option<(&'a str, &'a str, &'a Vec<Json>)>)
    ensures
        found is Some == result_of(event@) is Some,
        found matches Some((method, path, checks)) ==> result_of(event@) == Some(
            (method@, path@, item_views(checks@)),
        ),
{
    let result = event.get("result")?;
    let method = result.get_text("method")?;
    let path = result.get_text("path")?;
    let checks = result.get("checks")?.as_array()?;
    if all_well_formed(checks) {
        Some((method, path, checks))
    } else {
        None
    }
}

/// The test cases of one test result, one for each check of the response.
pub fn parse_event(event: &Json) -> (cases: Result<Vec<TestCase>, ProcessingError>)
    ensures
        outcomes_view(cases) == parsed_event(event@),
        cases matches Ok(c) ==> all_wf(c@),
{
    let (method, path, checks) = match result(event) {
        Some(found) => found,
        None => { return Err(ProcessingError::Malformed); },
    };
    let ghost outcomes = check_outcomes(method@, path@, item_views(checks@));
    let mut cases: Vec<TestCase> = Vec::new();
    let mut at: usize = 0;
    proof {
        lemma_all_or_first_error_start(outcomes);
        assert(case_views(cases@) =~= Seq::empty());
    }
    while at < checks.len()
        invariant
            at <= checks.len(),
            result_of(event@) == Some((method@, path@, item_views(checks@))),
            outcomes == check_outcomes(method@, path@, item_views(checks@)),
            all_or_first_error(outcomes.take(at as int)) == Ok::<
                Seq<TestCaseView>,
                Fault,
            >(case_views(cases@)),
            all_wf(cases@),
        decreases checks.len() - at,
    {
        proof {
            lemma_all_or_first_error_step(outcomes, at as int);
        }
        let ghost before = case_views(cases@);
        match classify_check(method, path, &checks[at]) {
            Ok(case) => {
                cases.push(case);
                assert(case_views(cases@) =~= before.push(case@));
            },
            Err(error) => {
                proof {
                    lemma_first_error_stays(outcomes, at + 1);
                }
                return Err(error);
            },
        }
        at = at + 1;
    }
    assert(outcomes.take(at as int) =~= outcomes);
    Ok(cases)
}

/// The test cases of one line of the log.
pub fn parse_line(line: &str) -> (cases: Result<Vec<TestCase>, ProcessingError>)
    ensures
        outcomes_view(cases) == parsed_line(line@),
        cases matches Ok(c) ==> all_wf(c@),
{
    let event = read(line)?;
    match event.get_text("event_type") {
        Some(kind) => if same_text(kind, "AfterExecution") {
            parse_event(&event)
        } else {
            let none: Vec<TestCase> = Vec::new();
            assert(case_views(none@) =~= Seq::empty());
            Ok(none)
        },
        None => Err(ProcessingError::Malformed),
    }
}

/// The test cases of a log of events, given as the text of the whole log.
pub fn process_debug_output(content: &str) -> (cases: Result<Vec<TestCase>, ProcessingError>)
    ensures
        outcomes_view(cases) == processed_debug_output(content@),
        cases matches Ok(c) ==> all_wf(c@),
{
    let rows = lines(content);
    let ghost outcomes = line_outcomes(lines_of(content@));
    let mut cases: Vec<TestCase> = Vec::new();
    let mut at: usize = 0;
    proof {
        lemma_concat_or_first_error_start(outcomes);
        assert(case_views(cases@) =~= Seq::empty());
    }
    while at < rows.len()
        invariant
            at <= rows.len(),
            views(rows@) == lines_of(content@),
            outcomes == line_outcomes(lines_of(content@)),
            concat_or_first_error(outcomes.take(at as int)) == Ok::<
                Seq<TestCaseView>,
                Fault,
            >(case_views(cases@)),
            all_wf(cases@),
        decreases rows.len() - at,
    {
        proof {
            lemma_concat_or_first_error_step(outcomes, at as int);
            assert(views(rows@)[at as int] == rows@[at as int]@);
        }
        let ghost before = cases@;
        match parse_line(rows[at]) {
            Ok(mut more) => {
                let ghost added = more@;
                cases.append(&mut more);
                assert(case_views(cases@) =~= case_views(before) + case_views(added));
            },
            Err(error) => {
                proof {
                    lemma_concat_first_error_stays(outcomes, at + 1);
                }
                return Err(error);
            },
        }
        at = at + 1;
    }
    assert(outcomes.take(at as int) =~= outcomes);
    Ok(cases)
}

/// A numbered failure of the test runner: its title in group 1, then the request.
pub const TEST_CASE: &'static str = r"(?s)[0-9]+?\. (.+?): .+  requests\.(\w+)\('(.+?)'";

/// An operation of the schema: its path in group 1 and its method in group 2.
pub const OPERATION: &'static str = r"state.schema\['(.+?)'\]\['(.+?)'\]";

/// The operation at which a schema error came up: its path in group 1, its method in group 2.
pub const SCHEMA_ERROR: &'static str = r"_step\(case=state\.schema\['(.+?)'\]\['(\w+?)']";

pub const HYPOTHESIS_BANNER: &'static str =
    "---------------------------------- Hypothesis ----------------------------------";

pub const FALSIFYING_EXAMPLE: &'static str = "Falsifying example:";

pub const SERVER_ERROR_TITLE: &'static str = "Received a response with 5xx status code";

/// Whether the regex engine accepts the expressions for the test runner's output.
pub open spec fn runner_expressions_compile() -> bool {
    regex_compiles(TEST_CASE@) && regex_compiles(OPERATION@) && regex_compiles(SCHEMA_ERROR@)
}

/// Whether the test runner could not reproduce what it had found.
pub open spec fn flaky(case: Seq<char>) -> bool {
    occurs_in(case, "hypothesis.errors.Flaky: Unreliable assumption"@) || occurs_in(
        case,
        "hypothesis.errors.Flaky: Inconsistent data generation!"@,
    )
}

/// The test case of a schema error, from the groups of `SCHEMA_ERROR`: the error belongs
/// to the operation named there, the method in upper case.
pub open spec fn schema_error_outcome(found: Option<Seq<Option<GroupView>>>) -> Result<
    TestCaseView,
    Fault,
> {
    match found {
        Some(groups) => match (group_text(groups, 1), group_text(groups, 2)) {
            (Some(path), Some(method)) => Ok(
                TestCaseView::at(
                    ascii_uppercase(method),
                    path,
                    ResultView::Error { kind: ErrorKind::Schema },
                ),
            ),
            _ => Err(Fault::Malformed),
        },
        None => Err(Fault::Malformed),
    }
}

/// The status code behind the title of a server error: the three bytes that follow the
/// title's end and a separator of two bytes, read as a number. No offset of a text comes
/// within five of the largest `usize`.
pub open spec fn status_behind(case: Seq<char>, title_end: int) -> Option<u16> {
    if title_end > usize::MAX - 5 {
        None
    } else {
        match byte_slice(case, title_end + 2, title_end + 5) {
            Some(digits) => status_written(digits),
            None => None,
        }
    }
}

/// The test case of a reported failure, from the groups of `TEST_CASE` and those of every
/// match of `OPERATION`. The failure belongs to the last operation named; its title must be
/// that of a server error, with a valid status code behind it.
pub open spec fn failure_outcome(
    case: Seq<char>,
    report: Option<Seq<Option<GroupView>>>,
    operations: Seq<Seq<Option<GroupView>>>,
) -> Result<TestCaseView, Fault> {
    if report is None || operations.len() == 0 {
        Err(Fault::Malformed)
    } else if report->0.len() <= 1 || report->0[1] is None {
        Err(Fault::Malformed)
    } else {
        let title = report->0[1]->0;
        match (group_text(operations.last(), 2), group_text(operations.last(), 1)) {
            (Some(method), Some(path)) => if title.text == SERVER_ERROR_TITLE@ {
                match status_behind(case, title.end) {
                    Some(status_code) => Ok(
                        TestCaseView::failure(
                            ascii_uppercase(method),
                            path,
                            FailureKind::ServerError { status_code },
                        ),
                    ),
                    None => Err(Fault::Malformed),
                }
            } else {
                Err(Fault::Unclassified)
            },
            _ => Err(Fault::Malformed),
        }
    }
}

/// The test case of one falsifying example, by the first rule that applies: the schema is
/// invalid; the failure is flaky; the test is unsatisfiable; a failure is reported.
pub open spec fn parsed_case(case: Seq<char>) -> Result<TestCaseView, Fault> {
    if occurs_in(case, "InvalidSchema:"@) {
        schema_error_outcome(regex_captures(SCHEMA_ERROR@, case))
    } else if flaky(case) {
        Ok(
            TestCaseView {
                method: None,
                path: None,
                result: ResultView::Error { kind: ErrorKind::Flaky },
            },
        )
    } else if occurs_in(case, "hypothesis.errors.Unsatisfiable:"@) {
        Ok(
            TestCaseView {
                method: None,
                path: None,
                result: ResultView::Error { kind: ErrorKind::Unsatisfiable },
            },
        )
    } else {
        failure_outcome(
            case,
            regex_captures(TEST_CASE@, case),
            regex_captures_all(OPERATION@, case),
        )
    }
}

/// The outcome of each falsifying example.
pub open spec fn case_outcomes(examples: Seq<Seq<char>>) -> Seq<
    Result<TestCaseView, Fault>,
> {
    examples.map_values(|case: Seq<char>| parsed_case(case))
}

/// The test cases of the test runner's output. Where several failures are reported, each
/// falsifying example behind the banner is a case; one failure is a case of its own; an
/// output without failures has no cases.
pub open spec fn processed_pytest_output(content: Seq<char>) -> Result<
    Seq<TestCaseView>,
    Fault,
> {
    if !runner_expressions_compile() {
        Err(Fault::Pattern)
    } else if occurs_in(content, "hypothesis.errors.MultipleFailures"@) {
        if occurs_in(content, HYPOTHESIS_BANNER@) {
            all_or_first_error(
                case_outcomes(
                    behind_first(
                        pieces(after_first(content, HYPOTHESIS_BANNER@), FALSIFYING_EXAMPLE@),
                    ),
                ),
            )
        } else {
            Err(Fault::Malformed)
        }
    } else if occurs_in(content, "== FAILURES =="@) {
        match parsed_case(content) {
            Ok(case) => Ok(seq![case]),
            Err(error) => Err(error),
        }
    } else {
        Ok(Seq::empty())
    }
}

/// Whether the test runner could not reproduce what it had found.
pub fn is_flaky(case: &str) -> (yes: bool)
    ensures
        yes == flaky(case@),
{
    contains(case, "hypothesis.errors.Flaky: Unreliable assumption") || contains(
        case,
        "hypothesis.errors.Flaky: Inconsistent data generation!",
    )
}

/// The test case of a schema error, from the groups of `SCHEMA_ERROR`.
pub fn schema_error_case(found: &Option<Vec<Option<Group>>>) -> (case: Result<
    TestCase,
    ProcessingError,
>)
    ensures
        outcome_view(case) == schema_error_outcome(found_view(*found)),
        case matches Ok(c) ==> c.wf(),
{
    match found {
        Some(groups) => match (text_of(groups, 1), text_of(groups, 2)) {
            (Some(path), Some(method)) => Ok(
                TestCase::error(
                    Some(to_ascii_uppercase(method)),
                    Some(path.to_owned()),
                    ErrorKind::Schema,
                ),
            ),
            _ => Err(ProcessingError::Malformed),
        },
        None => Err(ProcessingError::Malformed),
    }
}

/// The status code behind the title of a server error.
pub fn status_after(case: &str, title_end: usize) -> (status_code: Option<u16>)
    ensures
        status_code == status_behind(case@, title_end as int),
{
    if title_end > usize::MAX - 5 {
        return None;
    }
    let digits = slice_bytes(case, title_end + 2, title_end + 5)?;
    read_status(digits)
}

/// The test case of a reported failure, from the groups of `TEST_CASE` and those of every
/// match of `OPERATION`.
pub fn failure_case(
    case: &str,
    report: &Option<Vec<Option<Group>>>,
    operations: &Vec<Vec<Option<Group>>>,
) -> (outcome: Result<TestCase, ProcessingError>)
    ensures
        outcome_view(outcome) == failure_outcome(
            case@,
            found_view(*report),
            matches_view(operations@),
        ),
        outcome matches Ok(c) ==> c.wf(),
{
    let groups = match report {
        Some(groups) => groups,
        None => { return Err(ProcessingError::Malformed); },
    };
    if operations.len() == 0 || groups.len() <= 1 {
        return Err(ProcessingError::Malformed);
    }
    let title = match &groups[1] {
        Some(title) => title,
        None => { return Err(ProcessingError::Malformed); },
    };
    let operation = &operations[operations.len() - 1];
    assert(matches_view(operations@).last() == groups_view(operation@));
    match (text_of(operation, 2), text_of(operation, 1)) {
        (Some(method), Some(path)) => if same_text(title.text.as_str(), SERVER_ERROR_TITLE) {
            match status_after(case, title.end) {
                Some(status_code) => Ok(
                    TestCase::server_error(
                        to_ascii_uppercase(method),
                        path.to_owned(),
                        status_code,
                    ),
                ),
                None => Err(ProcessingError::Malformed),
            }
        } else {
            Err(ProcessingError::Unclassified)
        },
        _ => Err(ProcessingError::Malformed),
    }
}

/// The compiled expressions for the test runner's output.
pub struct RunnerPatterns {
    pub test_case: Expression,
    pub operation: Expression,
    pub schema_error: Expression,
}

impl RunnerPatterns {
    /// Each expression is compiled from its source text.
    pub open spec fn wf(&self) -> bool {
        &&& runner_expressions_compile()
        &&& self.test_case@ == TEST_CASE@
        &&& self.operation@ == OPERATION@
        &&& self.schema_error@ == SCHEMA_ERROR@
    }

    /// Compiles the expressions.
    pub fn new() -> (patterns: Result<RunnerPatterns, ProcessingError>)
        ensures
            patterns is Ok == runner_expressions_compile(),
            patterns matches Ok(p) ==> p.wf(),
            patterns matches Err(error) ==> error.fault() == Fault::Pattern,
    {
        let test_case = compiled(TEST_CASE)?;
        let operation = compiled(OPERATION)?;
        let schema_error = compiled(SCHEMA_ERROR)?;
        Ok(RunnerPatterns { test_case, operation, schema_error })
    }
}

/// The test case of one falsifying example.
pub fn parse_case(patterns: &RunnerPatterns, case: &str) -> (outcome: Result<
    TestCase,
    ProcessingError,
>)
    requires
        patterns.wf(),
    ensures
        outcome_view(outcome) == parsed_case(case@),
        outcome matches Ok(c) ==> c.wf(),
{
    if contains(case, "InvalidSchema:") {
        let found = captures(&patterns.schema_error, case);
        schema_error_case(&found)
    } else if is_flaky(case) {
        Ok(TestCase::error(None, None, ErrorKind::Flaky))
    } else if contains(case, "hypothesis.errors.Unsatisfiable:") {
        Ok(TestCase::error(None, None, ErrorKind::Unsatisfiable))
    } else {
        let report = captures(&patterns.test_case, case);
        let operations = captures_all(&patterns.operation, case);
        failure_case(case, &report, &operations)
    }
}

/// The test cases of the test runner's output.
#[verifier::loop_isolation(false)]
pub fn process_pytest_output(content: &str) -> (cases: Result<Vec<TestCase>, ProcessingError>)
    ensures
        outcomes_view(cases) == processed_pytest_output(content@),
        cases matches Ok(c) ==> all_wf(c@),
{
    let patterns = RunnerPatterns::new()?;
    let mut cases: Vec<TestCase> = Vec::new();
    if contains(content, "hypothesis.errors.MultipleFailures") {
        let output = match split_once(content, HYPOTHESIS_BANNER) {
            Some((_, output)) => output,
            None => { return Err(ProcessingError::Malformed); },
        };
        proof {
            reveal_strlit("Falsifying example:");
        }
        let examples = split(output, FALSIFYING_EXAMPLE);
        let ghost outcomes = case_outcomes(behind_first(views(examples@)));
        let mut at: usize = 1;
        proof {
            lemma_all_or_first_error_start(outcomes);
            assert(case_views(cases@) =~= Seq::empty());
        }
        while at < examples.len()
            invariant
                1 <= at <= examples.len(),
                patterns.wf(),
                outcomes == case_outcomes(behind_first(views(examples@))),
                all_or_first_error(outcomes.take(at - 1)) == Ok::<
                    Seq<TestCaseView>,
                    Fault,
                >(case_views(cases@)),
                all_wf(cases@),
            decreases examples.len() - at,
        {
            proof {
                lemma_all_or_first_error_step(outcomes, at - 1);
                assert(behind_first(views(examples@))[at - 1] == examples@[at as int]@);
            }
            let ghost before = case_views(cases@);
            match parse_case(&patterns, examples[at]) {
                Ok(case) => {
                    cases.push(case);
                    assert(case_views(cases@) =~= before.push(case@));
                },
                Err(error) => {
                    proof {
                        lemma_first_error_stays(outcomes, at as int);
                    }
                    return Err(error);
                },
            }
            at = at + 1;
        }
        assert(outcomes.take(at - 1) =~= outcomes);
        Ok(cases)
    } else if contains(content, "== FAILURES ==") {
        let case = parse_case(&patterns, content)?;
        cases.push(case);
        assert(case_views(cases@) =~= seq![case@]);
        Ok(cases)
    } else {
        assert(case_views(cases@) =~= Seq::empty());
        Ok(cases)
    }
}

/// A numbered failure in the summary of the command line's output.
pub const NUMBERED: &'static str = r"^[0-9]+\. ";

/// A server error, its status code in group 1.
pub const SERVER_ERROR: &'static str = r"Received a response with 5xx status code: ([0-9]+)";

/// A status code that the schema does not define, in group 1.
pub const UNDEFINED_STATUS: &'static str =
    r"Received a response with a status code, which is not defined in the schema: ([0-9]+)";

/// A content type that the schema does not declare.
pub const UNDECLARED_CONTENT_TYPE: &'static str =
    r"Received a response with '(.+?)' Content-Type, but it is not declared in the schema.";

/// Whether the regex engine accepts the expressions for the summary.
pub open spec fn summary_expressions_compile() -> bool {
    &&& regex_compiles(NUMBERED@)
    &&& regex_compiles(SERVER_ERROR@)
    &&& regex_compiles(UNDEFINED_STATUS@)
    &&& regex_compiles(UNDECLARED_CONTENT_TYPE@)
}

/// A line that names an endpoint ends with the mark of a positive or of a negative test.
pub open spec fn names_endpoint(line: Seq<char>) -> bool {
    "[P]"@.is_suffix_of(line) || "[N]"@.is_suffix_of(line)
}

/// The lines of the output that belong to the summary: those that name an endpoint and
/// the numbered failures.
pub open spec fn in_summary(line: Seq<char>) -> bool {
    names_endpoint(trimmed(line)) || regex_is_match(NUMBERED@, line)
}

/// The failure that a numbered line reports, by the first rule that applies. `server_error`
/// and `undefined_status` are the groups of `SERVER_ERROR` and of `UNDEFINED_STATUS` in the
/// line, `undeclared_content_type` says whether `UNDECLARED_CONTENT_TYPE` matches it.
pub open spec fn listed_failure(
    line: Seq<char>,
    server_error: Option<Seq<Option<GroupView>>>,
    undefined_status: Option<Seq<Option<GroupView>>>,
    undeclared_content_type: bool,
) -> Result<FailureKind, Fault> {
    if server_error is Some {
        match captured_status(server_error->0, 1) {
            Some(status_code) => Ok(FailureKind::ServerError { status_code }),
            None => Err(Fault::Malformed),
        }
    } else if occurs_in(line, "Response timed out after"@) {
        Ok(FailureKind::RequestTimeout)
    } else if occurs_in(line, "The received response does not conform to the defined schema"@) {
        Ok(FailureKind::ResponseConformance)
    } else if undefined_status is Some {
        match captured_status(undefined_status->0, 1) {
            Some(status_code) => Ok(FailureKind::UnexpectedStatusCode { status_code }),
            None => Err(Fault::Malformed),
        }
    } else if undeclared_content_type {
        Ok(FailureKind::ContentTypeConformance)
    } else if occurs_in(line, "Response is missing the `Content-Type` header"@) {
        Ok(FailureKind::MissingContentType)
    } else if occurs_in(line, "Malformed media type"@) {
        Ok(FailureKind::MalformedMediaType)
    } else {
        Err(Fault::Unclassified)
    }
}

/// The failure that a numbered line reports.
pub open spec fn failure_in(line: Seq<char>) -> Result<FailureKind, Fault> {
    listed_failure(
        line,
        regex_captures(SERVER_ERROR@, line),
        regex_captures(UNDEFINED_STATUS@, line),
        regex_is_match(UNDECLARED_CONTENT_TYPE@, line),
    )
}

/// What has been read of a summary: the endpoint that the next failures belong to, and the
/// test cases so far.
pub ghost struct Summary {
    pub endpoint: Option<Endpoint>,
    pub cases: Seq<TestCaseView>,
}

/// An operation of the API.
pub ghost struct Endpoint {
    pub method: Seq<char>,
    pub path: Seq<char>,
}

/// The summary after one more line of the output. A line outside the summary changes
/// nothing. In it, a numbered line behind an endpoint adds that endpoint's failure; else
/// the line must name an endpoint, by its first two words.
pub open spec fn summary_step(summary: Summary, line: Seq<char>) -> Result<
    Summary,
    Fault,
> {
    let entry = trimmed(line);
    if !in_summary(line) {
        Ok(summary)
    } else if summary.endpoint is Some && regex_is_match(NUMBERED@, entry) {
        match failure_in(entry) {
            Ok(kind) => Ok(
                Summary {
                    endpoint: summary.endpoint,
                    cases: summary.cases.push(
                        TestCaseView::failure(
                            summary.endpoint->0.method,
                            summary.endpoint->0.path,
                            kind,
                        ),
                    ),
                },
            ),
            Err(error) => Err(error),
        }
    } else if names_endpoint(entry) && words_of(entry).len() >= 2 {
        Ok(
            Summary {
                endpoint: Some(Endpoint { method: words_of(entry)[0], path: words_of(entry)[1] }),
                cases: summary.cases,
            },
        )
    } else {
        Err(Fault::Malformed)
    }
}

/// The summary after the given lines, or the error of the first line that has one.
pub open spec fn summary_of(rows: Seq<Seq<char>>) -> Result<Summary, Fault>
    decreases rows.len(),
{
    if rows.len() == 0 {
        Ok(Summary { endpoint: None, cases: Seq::empty() })
    } else {
        match summary_of(rows.drop_last()) {
            Ok(summary) => summary_step(summary, rows.last()),
            Err(error) => Err(error),
        }
    }
}

/// The failures that the command line's output lists, endpoint by endpoint, each one once;
/// `None` where the output reports no failures at all.
pub open spec fn deduplicated(content: Seq<char>) -> Result<
    Option<Seq<TestCaseView>>,
    Fault,
> {
    if !occurs_in(content, "FAILURES"@) {
        Ok(None)
    } else if !summary_expressions_compile() {
        Err(Fault::Pattern)
    } else {
        match summary_of(lines_of(content)) {
            Ok(summary) => Ok(Some(summary.cases)),
            Err(error) => Err(error),
        }
    }
}

/// One more line: the summary of the lines before it decides together with the line.
pub proof fn lemma_summary_step(rows: Seq<Seq<char>>, done: int)
    requires
        0 <= done < rows.len(),
    ensures
        summary_of(rows.take(done + 1)) == match summary_of(rows.take(done)) {
            Ok(summary) => summary_step(summary, rows[done]),
            Err(error) => Err(error),
        },
{
    assert(rows.take(done + 1).drop_last() =~= rows.take(done));
}

/// An error among the first lines is the error of the whole summary.
pub proof fn lemma_summary_error_stays(rows: Seq<Seq<char>>, done: int)
    requires
        0 <= done <= rows.len(),
        summary_of(rows.take(done)) is Err,
    ensures
        summary_of(rows) == summary_of(rows.take(done)),
    decreases rows.len() - done,
{
    if done < rows.len() {
        lemma_summary_step(rows, done);
        lemma_summary_error_stays(rows, done + 1);
    } else {
        assert(rows.take(done) =~= rows);
    }
}

/// The failure that a numbered line reports, given what the expressions found in it.
pub fn listed_failure_kind(
    line: &str,
    server_error: &Option<Vec<Option<Group>>>,
    undefined_status: &Option<Vec<Option<Group>>>,
    undeclared_content_type: bool,
) -> (kind: Result<FailureKind, ProcessingError>)
    ensures
        crate::error::fault_view(kind) == listed_failure(
            line@,
            found_view(*server_error),
            found_view(*undefined_status),
            undeclared_content_type,
        ),
        kind matches Ok(k) ==> k.wf(),
{
    if let Some(groups) = server_error {
        match status_in(groups, 1) {
            Some(status_code) => Ok(FailureKind::ServerError { status_code }),
            None => Err(ProcessingError::Malformed),
        }
    } else if contains(line, "Response timed out after") {
        Ok(FailureKind::RequestTimeout)
    } else if contains(line, "The received response does not conform to the defined schema") {
        Ok(FailureKind::ResponseConformance)
    } else if let Some(groups) = undefined_status {
        match status_in(groups, 1) {
            Some(status_code) => Ok(FailureKind::UnexpectedStatusCode { status_code }),
            None => Err(ProcessingError::Malformed),
        }
    } else if undeclared_content_type {
        Ok(FailureKind::ContentTypeConformance)
    } else if contains(line, "Response is missing the `Content-Type` header") {
        Ok(FailureKind::MissingContentType)
    } else if contains(line, "Malformed media type") {
        Ok(FailureKind::MalformedMediaType)
    } else {
        Err(ProcessingError::Unclassified)
    }
}

/// The compiled expressions for the summary.
pub struct SummaryPatterns {
    pub numbered: Expression,
    pub server_error: Expression,
    pub undefined_status: Expression,
    pub undeclared_content_type: Expression,
}

impl SummaryPatterns {
    /// Each expression is compiled from its source text.
    pub open spec fn wf(&self) -> bool {
        &&& summary_expressions_compile()
        &&& self.numbered@ == NUMBERED@
        &&& self.server_error@ == SERVER_ERROR@
        &&& self.undefined_status@ == UNDEFINED_STATUS@
        &&& self.undeclared_content_type@ == UNDECLARED_CONTENT_TYPE@
    }

    /// Compiles the expressions.
    pub fn new() -> (patterns: Result<SummaryPatterns, ProcessingError>)
        ensures
            patterns is Ok == summary_expressions_compile(),
            patterns matches Ok(p) ==> p.wf(),
            patterns matches Err(error) ==> error.fault() == Fault::Pattern,
    {
        let numbered = compiled(NUMBERED)?;
        let server_error = compiled(SERVER_ERROR)?;
        let undefined_status = compiled(UNDEFINED_STATUS)?;
        let undeclared_content_type = compiled(UNDECLARED_CONTENT_TYPE)?;
        Ok(SummaryPatterns { numbered, server_error, undefined_status, undeclared_content_type })
    }

    /// The failure that a numbered line reports.
    pub fn failure(&self, line: &str) -> (kind: Result<FailureKind, ProcessingError>)
        requires
            self.wf(),
        ensures
            crate::error::fault_view(kind) == failure_in(line@),
            kind matches Ok(k) ==> k.wf(),
    {
        let server_error = captures(&self.server_error, line);
        let undefined_status = captures(&self.undefined_status, line);
        let undeclared_content_type = is_match(&self.undeclared_content_type, line);
        listed_failure_kind(line, &server_error, &undefined_status, undeclared_content_type)
    }
}

/// Whether a line names an endpoint.
pub fn is_endpoint_line(line: &str) -> (yes: bool)
    ensures
        yes == names_endpoint(line@),
{
    ends_with(line, "[P]") || ends_with(line, "[N]")
}

/// The failures that the command line's output lists, endpoint by endpoint.
#[verifier::loop_isolation(false)]
pub fn get_deduplicated_results(content: &str) -> (cases: Result<
    Option<Vec<TestCase>>,
    ProcessingError,
>)
    ensures
        cases is Ok == deduplicated(content@) is Ok,
        cases matches Err(error) ==> deduplicated(content@) == Err::<
            Option<Seq<TestCaseView>>,
            Fault,
        >(error.fault()),
        cases matches Ok(None) ==> deduplicated(content@) == Ok::<
            Option<Seq<TestCaseView>>,
            Fault,
        >(None),
        cases matches Ok(Some(c)) ==> deduplicated(content@) == Ok::<
            Option<Seq<TestCaseView>>,
            Fault,
        >(Some(case_views(c@))) && all_wf(c@),
{
    if !contains(content, "FAILURES") {
        return Ok(None);
    }
    let patterns = SummaryPatterns::new()?;
    let rows = lines(content);
    let mut cases: Vec<TestCase> = Vec::new();
    let mut endpoint: Option<(&str, &str)> = None;
    let mut at: usize = 0;
    let ghost mut summary = Summary { endpoint: None, cases: Seq::empty() };
    proof {
        assert(views(rows@).take(0).len() == 0);
        assert(case_views(cases@) =~= Seq::empty());
    }
    while at < rows.len()
        invariant
            at <= rows.len(),
            summary_of(views(rows@).take(at as int)) == Ok::<Summary, Fault>(summary),
            summary.cases == case_views(cases@),
            summary.endpoint == match endpoint {
                Some((method, path)) => Some(Endpoint { method: method@, path: path@ }),
                None => None,
            },
            all_wf(cases@),
        decreases rows.len() - at,
    {
        proof {
            lemma_summary_step(views(rows@), at as int);
            assert(views(rows@)[at as int] == rows@[at as int]@);
        }
        let line = rows[at];
        let entry = trim(line);
        let ghost before = case_views(cases@);
        if is_endpoint_line(entry) || is_match(&patterns.numbered, line) {
            if endpoint.is_some() && is_match(&patterns.numbered, entry) {
                let (method, path) = endpoint.unwrap();
                match patterns.failure(entry) {
                    Ok(kind) => {
                        let case = TestCase::new(
                            Some(method.to_owned()),
                            Some(path.to_owned()),
                            crate::output::TestCaseResult::Failure { kind },
                        );
                        cases.push(case);
                        proof {
                            assert(case_views(cases@) =~= before.push(case@));
                            summary =
                            Summary { endpoint: summary.endpoint, cases: before.push(case@) };
                        }
                    },
                    Err(error) => {
                        proof {
                            lemma_summary_error_stays(views(rows@), at + 1);
                        }
                        return Err(error);
                    },
                }
            } else if is_endpoint_line(entry) {
                let words = split_ascii_whitespace(entry);
                if words.len() >= 2 {
                    endpoint = Some((words[0], words[1]));
                    proof {
                        assert(views(words@)[0] == words@[0]@);
                        assert(views(words@)[1] == words@[1]@);
                        summary =
                        Summary {
                            endpoint: Some(Endpoint { method: words@[0]@, path: words@[1]@ }),
                            cases: summary.cases,
                        };
                    }
                } else {
                    proof {
                        lemma_summary_error_stays(views(rows@), at + 1);
                    }
                    return Err(ProcessingError::Malformed);
                }
            } else {
                proof {
                    lemma_summary_error_stays(views(rows@), at + 1);
                }
                return Err(ProcessingError::Malformed);
            }
        }
        at = at + 1;
    }
    assert(views(rows@).take(at as int) =~= views(rows@));
    Ok(Some(cases))
}

} // verus!
