//! Fuzz-lightyear: the section of failures in the output of a test run.

use crate::error::{Fault, ProcessingError};
use crate::output::{
    all_wf, case_views, ErrorKind, FailureKind, ResultView, SkipKind, TestCase,
    TestCaseResult, TestCaseView,
};
use crate::pattern::{compiled, regex_compiles, regex_split};
use crate::text::{contains, from_first, occurs_in, suffix_from_first, views};
use vstd::prelude::*;

verus! {

/// The heading of one failed test.
pub const TEST_CASE: &'static str = r"_* ?[A-Za-z\._]*? \[\w+\] ? _*";

pub const FAILURES: &'static str =
    "================================ Test Failures ================================";

pub const REGULAR_CODES: &'static str = "Reports regular 422, 400, 404 as failures";

/// The engine counts a regular client error as a failure.
pub open spec fn reports_client_error(case: Seq<char>) -> bool {
    ||| occurs_in(case, "422 UNPROCESSABLE ENTITY"@)
    ||| occurs_in(case, "400 BAD REQUEST"@)
    ||| occurs_in(case, "404 NOT FOUND"@)
}

/// The outcome of one part of the section of failures, by the first rule that applies:
/// the engine failed on the schema; a regular client error is reported; the response does
/// not fit the schema; the server failed. A part to which no rule applies is no test case.
pub open spec fn outcome_of(case: Seq<char>) -> Option<ResultView> {
    if occurs_in(case, "SwaggerMappingError"@) {
        Some(ResultView::Error { kind: ErrorKind::Internal })
    } else if reports_client_error(case) {
        Some(ResultView::Skip { kind: SkipKind::NotInteresting, reason: REGULAR_CODES@ })
    } else if occurs_in(case, "jsonschema.exceptions.ValidationError"@) {
        Some(ResultView::Failure { kind: FailureKind::ResponseConformance })
    } else if occurs_in(case, "HTTPInternalServerError"@) {
        Some(ResultView::Failure { kind: FailureKind::ServerError { status_code: 500 } })
    } else {
        None
    }
}

/// The test case of one part: the output names no endpoint.
pub open spec fn processed_case(case: Seq<char>) -> Option<TestCaseView> {
    match outcome_of(case) {
        Some(result) => Some(TestCaseView { method: None, path: None, result }),
        None => None,
    }
}

/// The values that are there, in their order.
pub open spec fn present<T>(items: Seq<Option<T>>) -> Seq<T>
    decreases items.len(),
{
    if items.len() == 0 {
        Seq::empty()
    } else {
        match items.last() {
            Some(item) => present(items.drop_last()).push(item),
            None => present(items.drop_last()),
        }
    }
}

/// The section of failures: the output from its banner on, or nothing where there is none.
pub open spec fn failures_of(content: Seq<char>) -> Seq<char> {
    if occurs_in(content, FAILURES@) {
        suffix_from_first(content, FAILURES@)
    } else {
        Seq::empty()
    }
}

/// What each part of the section of failures stands for.
pub open spec fn case_outcomes(parts: Seq<Seq<char>>) -> Seq<Option<TestCaseView>> {
    parts.map_values(|case: Seq<char>| processed_case(case))
}

/// The test cases of a test run: the section of failures is cut at the headings, and each
/// part that a rule applies to is a test case.
pub open spec fn processed_stdout(content: Seq<char>) -> Result<Seq<TestCaseView>, Fault> {
    if regex_compiles(TEST_CASE@) {
        Ok(present(case_outcomes(regex_split(TEST_CASE@, failures_of(content)))))
    } else {
        Err(Fault::Pattern)
    }
}

/// Whether the engine counts a regular client error as a failure.
pub fn should_skip(case: &str) -> (yes: bool)
    ensures
        yes == reports_client_error(case@),
{
    contains(case, "422 UNPROCESSABLE ENTITY") || contains(case, "400 BAD REQUEST") || contains(
        case,
        "404 NOT FOUND",
    )
}

/// Whether the engine failed on the schema.
pub fn is_error(case: &str) -> (yes: bool)
    ensures
        yes == occurs_in(case@, "SwaggerMappingError"@),
{
    contains(case, "SwaggerMappingError")
}

/// Whether the response does not fit the schema.
pub fn is_response_conformance_failure(case: &str) -> (yes: bool)
    ensures
        yes == occurs_in(case@, "jsonschema.exceptions.ValidationError"@),
{
    contains(case, "jsonschema.exceptions.ValidationError")
}

/// Whether the server failed.
pub fn is_server_error(case: &str) -> (yes: bool)
    ensures
        yes == occurs_in(case@, "HTTPInternalServerError"@),
{
    contains(case, "HTTPInternalServerError")
}

/// A test case as a plain value, where there is one.
pub open spec fn maybe_view(case: Option<TestCase>) -> Option<TestCaseView> {
    match case {
        Some(case) => Some(case@),
        None => None,
    }
}

/// The test case of one part of the section of failures.
pub fn process_case(case: &str) -> (outcome: Option<TestCase>)
    ensures
        maybe_view(outcome) == processed_case(case@),
        outcome matches Some(c) ==> c.wf(),
{
    if is_error(case) {
        Some(TestCase::error(None, None, ErrorKind::Internal))
    } else if should_skip(case) {
        Some(
            TestCase::new(
                None,
                None,
                TestCaseResult::Skip {
                    kind: SkipKind::NotInteresting,
                    reason: REGULAR_CODES.to_owned(),
                },
            ),
        )
    } else if is_response_conformance_failure(case) {
        Some(
            TestCase::new(
                None,
                None,
                TestCaseResult::Failure { kind: FailureKind::ResponseConformance },
            ),
        )
    } else if is_server_error(case) {
        Some(
            TestCase::new(
                None,
                None,
                TestCaseResult::Failure { kind: FailureKind::ServerError { status_code: 500 } },
            ),
        )
    } else {
        None
    }
}

/// The test cases of a test run.
#[verifier::loop_isolation(false)]
pub fn process_stdout(content: &str) -> (cases: Result<Vec<TestCase>, ProcessingError>)
    ensures
        crate::output::outcomes_view(cases) == processed_stdout(content@),
        cases matches Ok(c) ==> all_wf(c@),
{
    let pattern = compiled(TEST_CASE)?;
    let failures = match from_first(content, FAILURES) {
        Some(failures) => failures,
        None => "",
    };
    proof {
        reveal_strlit("");
        assert(""@ =~= Seq::<char>::empty());
    }
    let parts = crate::pattern::split(&pattern, failures);
    let ghost outcomes = case_outcomes(views(parts@));
    let mut cases: Vec<TestCase> = Vec::new();
    let mut at: usize = 0;
    proof {
        assert(outcomes.take(0) =~= Seq::empty());
        assert(case_views(cases@) =~= Seq::empty());
    }
    while at < parts.len()
        invariant
            at <= parts.len(),
            case_views(cases@) == present(outcomes.take(at as int)),
            all_wf(cases@),
        decreases parts.len() - at,
    {
        proof {
            assert(outcomes.take(at + 1).drop_last() =~= outcomes.take(at as int));
            assert(views(parts@)[at as int] == parts@[at as int]@);
        }
        let ghost before = case_views(cases@);
        if let Some(case) = process_case(parts[at]) {
            cases.push(case);
            assert(case_views(cases@) =~= before.push(case@));
        }
        at = at + 1;
    }
    assert(outcomes.take(at as int) =~= outcomes);
    Ok(cases)
}

} // verus!
