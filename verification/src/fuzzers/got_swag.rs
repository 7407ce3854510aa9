//! Got Swag: the report of a test run, one numbered entry per failed monkey test.

use crate::error::{Fault, ProcessingError};
use crate::output::{
    all_or_first_error, all_wf, case_views, lemma_all_or_first_error_start,
    lemma_all_or_first_error_step, lemma_first_error_stays, outcome_view, outcomes_view,
    is_server_error, ErrorKind, FailureKind, ResultView, SkipKind, TestCase, TestCaseResult,
    TestCaseView,
};
use crate::pattern::{Expression, 
    captured_status, captures, compiled, found_view, group_text, regex_captures, regex_compiles,
    regex_split, status_in, text_of, Group, GroupView,
};
use crate::text::{behind_first, contains, occurs_in, views};
use vstd::prelude::*;

verus! {

/// The heading of one entry of the report.
pub const TEST_CASE: &'static str = r"\d+\) Got Swag\? http://0.0.0.0:\d+/.+?: ";

/// The operation under test: its method in group 1, its path in group 2.
pub const METHOD_PATH: &'static str = r"(\w+?) (.+?) Monkey Test";

/// A server error, its status code in group 1.
pub const SERVER_ERROR: &'static str = r"Status (5\d{2}) detected";

/// A status code that was not expected, in group 1.
pub const UNEXPECTED_STATUS: &'static str = r"Unexpected response status (\d{3})";

pub const MISSING_AUTH: &'static str =
    "Error: done() invoked with non-Error: Could not authenticate";

/// Whether the regex engine accepts the parser's expressions.
pub open spec fn expressions_compile() -> bool {
    &&& regex_compiles(TEST_CASE@)
    &&& regex_compiles(METHOD_PATH@)
    &&& regex_compiles(SERVER_ERROR@)
    &&& regex_compiles(UNEXPECTED_STATUS@)
}

/// The engine's own connection failed.
pub open spec fn reports_error(case: Seq<char>) -> bool {
    occurs_in(case, "write EPROTO"@)
}

/// The response does not fit the schema.
pub open spec fn reports_nonconformance(case: Seq<char>) -> bool {
    occurs_in(case, "is not of a type(s) "@) || occurs_in(case, "does not conform to the"@)
}

/// Why an entry is left out of the verdicts, if it is.
pub open spec fn skipped(case: Seq<char>) -> Option<ResultView> {
    if occurs_in(case, MISSING_AUTH@) {
        Some(ResultView::Skip { kind: SkipKind::CanNotTest, reason: "Missing auth"@ })
    } else if occurs_in(case, "Could not GET"@) {
        Some(
            ResultView::Skip { kind: SkipKind::CanNotTest, reason: "Can not make a GET request"@ },
        )
    } else if occurs_in(case, "Invalid data"@) {
        Some(
            ResultView::Skip {
                kind: SkipKind::InvalidAssumption,
                reason: "Concludes failure if data is not object or falsy"@,
            },
        )
    } else if occurs_in(case, "Body should be empty"@) {
        Some(
            ResultView::Skip {
                kind: SkipKind::InvalidAssumption,
                reason: "Expects empty body if schema is an empty object"@,
            },
        )
    } else {
        None
    }
}

/// The outcome of one entry, by the first rule that applies: the engine failed; the entry
/// is skipped; the response does not fit the schema; its status code is unexpected, which
/// is a server error for a code of the class 5xx; a server error is detected. `unexpected`
/// and `server_error` are the groups of `UNEXPECTED_STATUS` and `SERVER_ERROR` in the entry.
pub open spec fn verdict(
    case: Seq<char>,
    unexpected: Option<Seq<Option<GroupView>>>,
    server_error: Option<Seq<Option<GroupView>>>,
) -> Result<ResultView, Fault> {
    if reports_error(case) {
        Ok(ResultView::Error { kind: ErrorKind::Internal })
    } else if skipped(case) is Some {
        Ok(skipped(case)->0)
    } else if reports_nonconformance(case) {
        Ok(ResultView::Failure { kind: FailureKind::ResponseConformance })
    } else if unexpected is Some {
        match captured_status(unexpected->0, 1) {
            Some(status_code) => if is_server_error(status_code) {
                Ok(ResultView::Failure { kind: FailureKind::ServerError { status_code } })
            } else {
                Ok(ResultView::Failure { kind: FailureKind::UnexpectedStatusCode { status_code } })
            },
            None => Err(Fault::Malformed),
        }
    } else if server_error is Some {
        match captured_status(server_error->0, 1) {
            Some(status_code) => Ok(
                ResultView::Failure { kind: FailureKind::ServerError { status_code } },
            ),
            None => Err(Fault::Malformed),
        }
    } else {
        Err(Fault::Unclassified)
    }
}

/// The test case of one entry: the operation that `METHOD_PATH` finds in it, with the
/// entry's verdict. An entry that names no operation is malformed.
pub open spec fn classified(
    case: Seq<char>,
    operation: Option<Seq<Option<GroupView>>>,
    unexpected: Option<Seq<Option<GroupView>>>,
    server_error: Option<Seq<Option<GroupView>>>,
) -> Result<TestCaseView, Fault> {
    match operation {
        Some(groups) => match (group_text(groups, 1), group_text(groups, 2)) {
            (Some(method), Some(path)) => match verdict(case, unexpected, server_error) {
                Ok(result) => Ok(TestCaseView::at(method, path, result)),
                Err(error) => Err(error),
            },
            _ => Err(Fault::Malformed),
        },
        None => Err(Fault::Malformed),
    }
}

/// The test case of one entry of the report.
pub open spec fn processed_case(case: Seq<char>) -> Result<TestCaseView, Fault> {
    classified(
        case,
        regex_captures(METHOD_PATH@, case),
        regex_captures(UNEXPECTED_STATUS@, case),
        regex_captures(SERVER_ERROR@, case),
    )
}

/// The outcome of each entry.
pub open spec fn case_outcomes(entries: Seq<Seq<char>>) -> Seq<
    Result<TestCaseView, Fault>,
> {
    entries.map_values(|case: Seq<char>| processed_case(case))
}

/// The test cases of a report: one for each entry behind a heading, in their order. What
/// stands before the first heading is no entry.
pub open spec fn processed_stdout(content: Seq<char>) -> Result<
    Seq<TestCaseView>,
    Fault,
> {
    if expressions_compile() {
        all_or_first_error(case_outcomes(behind_first(regex_split(TEST_CASE@, content))))
    } else {
        Err(Fault::Pattern)
    }
}

/// Whether the engine's own connection failed.
pub fn is_error(case: &str) -> (yes: bool)
    ensures
        yes == reports_error(case@),
{
    contains(case, "write EPROTO")
}

/// Whether the response does not fit the schema.
pub fn is_response_conformance_failure(case: &str) -> (yes: bool)
    ensures
        yes == reports_nonconformance(case@),
{
    contains(case, "is not of a type(s) ") || contains(case, "does not conform to the")
}

/// Why an entry is left out of the verdicts, if it is.
pub fn skip_reason(case: &str) -> (reason: Option<TestCaseResult>)
    ensures
        crate::output::result_view(reason) == skipped(case@),
{
    if contains(case, MISSING_AUTH) {
        Some(TestCaseResult::Skip { kind: SkipKind::CanNotTest, reason: "Missing auth".to_owned() })
    } else if contains(case, "Could not GET") {
        Some(
            TestCaseResult::Skip {
                kind: SkipKind::CanNotTest,
                reason: "Can not make a GET request".to_owned(),
            },
        )
    } else if contains(case, "Invalid data") {
        Some(
            TestCaseResult::Skip {
                kind: SkipKind::InvalidAssumption,
                reason: "Concludes failure if data is not object or falsy".to_owned(),
            },
        )
    } else if contains(case, "Body should be empty") {
        Some(
            TestCaseResult::Skip {
                kind: SkipKind::InvalidAssumption,
                reason: "Expects empty body if schema is an empty object".to_owned(),
            },
        )
    } else {
        None
    }
}

/// The outcome of one entry, given what the expressions found in it.
pub fn judge(
    case: &str,
    unexpected: &Option<Vec<Option<Group>>>,
    server_error: &Option<Vec<Option<Group>>>,
) -> (result: Result<TestCaseResult, ProcessingError>)
    ensures
        crate::output::verdict_view(result) == verdict(
            case@,
            found_view(*unexpected),
            found_view(*server_error),
        ),
        result matches Ok(outcome) ==> outcome@.wf(),
{
    if is_error(case) {
        return Ok(TestCaseResult::Error { kind: ErrorKind::Internal });
    }
    if let Some(reason) = skip_reason(case) {
        return Ok(reason);
    }
    if is_response_conformance_failure(case) {
        Ok(TestCaseResult::Failure { kind: FailureKind::ResponseConformance })
    } else if let Some(groups) = unexpected {
        match status_in(groups, 1) {
            Some(status_code) => if 500 <= status_code && status_code < 600 {
                Ok(TestCaseResult::Failure { kind: FailureKind::ServerError { status_code } })
            } else {
                Ok(
                    TestCaseResult::Failure {
                        kind: FailureKind::UnexpectedStatusCode { status_code },
                    },
                )
            },
            None => Err(ProcessingError::Malformed),
        }
    } else if let Some(groups) = server_error {
        match status_in(groups, 1) {
            Some(status_code) => Ok(
                TestCaseResult::Failure { kind: FailureKind::ServerError { status_code } },
            ),
            None => Err(ProcessingError::Malformed),
        }
    } else {
        Err(ProcessingError::Unclassified)
    }
}

/// The test case of one entry, given what the expressions found in it.
pub fn classify(
    case: &str,
    operation: &Option<Vec<Option<Group>>>,
    unexpected: &Option<Vec<Option<Group>>>,
    server_error: &Option<Vec<Option<Group>>>,
) -> (outcome: Result<TestCase, ProcessingError>)
    ensures
        outcome_view(outcome) == classified(
            case@,
            found_view(*operation),
            found_view(*unexpected),
            found_view(*server_error),
        ),
        outcome matches Ok(c) ==> c.wf(),
{
    match operation {
        Some(groups) => match (text_of(groups, 1), text_of(groups, 2)) {
            (Some(method), Some(path)) => {
                let result = judge(case, unexpected, server_error)?;
                Ok(TestCase::new(Some(method.to_owned()), Some(path.to_owned()), result))
            },
            _ => Err(ProcessingError::Malformed),
        },
        None => Err(ProcessingError::Malformed),
    }
}

/// The compiled expressions of this parser.
pub struct Patterns {
    pub test_case: Expression,
    pub method_path: Expression,
    pub server_error: Expression,
    pub unexpected_status: Expression,
}

impl Patterns {
    /// Each expression is compiled from its source text.
    pub open spec fn wf(&self) -> bool {
        &&& expressions_compile()
        &&& self.test_case@ == TEST_CASE@
        &&& self.method_path@ == METHOD_PATH@
        &&& self.server_error@ == SERVER_ERROR@
        &&& self.unexpected_status@ == UNEXPECTED_STATUS@
    }

    /// Compiles the expressions.
    pub fn new() -> (patterns: Result<Patterns, ProcessingError>)
        ensures
            patterns is Ok == expressions_compile(),
            patterns matches Ok(p) ==> p.wf(),
            patterns matches Err(error) ==> error.fault() == Fault::Pattern,
    {
        let test_case = compiled(TEST_CASE)?;
        let method_path = compiled(METHOD_PATH)?;
        let server_error = compiled(SERVER_ERROR)?;
        let unexpected_status = compiled(UNEXPECTED_STATUS)?;
        Ok(Patterns { test_case, method_path, server_error, unexpected_status })
    }
}

/// The test case of one entry of the report.
pub fn process_case(patterns: &Patterns, case: &str) -> (outcome: Result<
    TestCase,
    ProcessingError,
>)
    requires
        patterns.wf(),
    ensures
        outcome_view(outcome) == processed_case(case@),
        outcome matches Ok(c) ==> c.wf(),
{
    let operation = captures(&patterns.method_path, case);
    let unexpected = captures(&patterns.unexpected_status, case);
    let server_error = captures(&patterns.server_error, case);
    classify(case, &operation, &unexpected, &server_error)
}

/// The test cases of a report.
#[verifier::loop_isolation(false)]
pub fn process_stdout(content: &str) -> (cases: Result<Vec<TestCase>, ProcessingError>)
    ensures
        outcomes_view(cases) == processed_stdout(content@),
        cases matches Ok(c) ==> all_wf(c@),
{
    let patterns = Patterns::new()?;
    let entries = crate::pattern::split(&patterns.test_case, content);
    let ghost outcomes = case_outcomes(behind_first(views(entries@)));
    let mut cases: Vec<TestCase> = Vec::new();
    if entries.len() == 0 {
        
        assert(case_views(cases@) =~= Seq::empty());
        return Ok(cases);
    }
    let mut at: usize = 1;
    proof {
        lemma_all_or_first_error_start(outcomes);
        assert(case_views(cases@) =~= Seq::empty());
    }
    while at < entries.len()
        invariant
            1 <= at <= entries.len(),
            all_or_first_error(outcomes.take(at - 1)) == Ok::<Seq<TestCaseView>, Fault>(
                case_views(cases@),
            ),
            all_wf(cases@),
        decreases entries.len() - at,
    {
        proof {
            lemma_all_or_first_error_step(outcomes, at - 1);
            assert(behind_first(views(entries@))[at - 1] == entries@[at as int]@);
        }
        let ghost before = case_views(cases@);
        match process_case(&patterns, entries[at]) {
            Ok(case) => {
                cases.push(case);
                assert(case_views(cases@) =~= before.push(case@));
            },
            Err(error) => {
                proof {
                    lemma_first_error_stays(outcomes, at as int);
                }
                return Err(error);
            },
        }
        at = at + 1;
    }
    assert(outcomes.take(at - 1) =~= outcomes);
    Ok(cases)
}

} // verus!
