//! The canonical outcome of one test case, whatever engine reported it.

use crate::error::{Fault, ProcessingError};
use vstd::prelude::*;

verus! {

/// Why a request counts as failed.
#[derive(Debug, Clone, Copy, PartialEq, Eq, Structural)]
pub enum FailureKind {
    ServerError { status_code: u16 },
    UnexpectedStatusCode { status_code: u16 },
    ResponseConformance,
    ResponseHeadersConformance,
    ContentTypeConformance,
    RequestTimeout,
    MissingContentType,
    MalformedMediaType,
}

/// Why the engine itself could not give a verdict.
#[derive(Debug, Clone, Copy, PartialEq, Eq, Structural)]
pub enum ErrorKind {
    /// The failure could not be reproduced reliably.
    Flaky,
    Unsatisfiable,
    /// The API schema is not valid.
    Schema,
    Internal,
}

/// Why a test case is left out of the verdicts.
#[derive(Debug, Clone, Copy, PartialEq, Eq, Structural)]
pub enum SkipKind {
    /// The engine assumes something of the target that does not hold in general.
    InvalidAssumption,
    /// The engine cannot test the endpoint.
    CanNotTest,
    /// Of no interest to the analysis.
    NotInteresting,
}

/// The outcome of one test case.
#[allow(inconsistent_fields)]
#[derive(Debug, Clone, PartialEq, Eq)]
pub enum TestCaseResult {
    Pass,
    Skip { kind: SkipKind, reason: String },
    Recommendation { kind: String },
    Failure { kind: FailureKind },
    Error { kind: ErrorKind },
}

/// An outcome as a plain value.
#[allow(inconsistent_fields)]
pub ghost enum ResultView {
    Pass,
    Skip { kind: SkipKind, reason: Seq<char> },
    Recommendation { kind: Seq<char> },
    Failure { kind: FailureKind },
    Error { kind: ErrorKind },
}

/// One classified request: the endpoint, where the engine's output names one, and the outcome.
#[derive(Debug, Clone, PartialEq, Eq)]
pub struct TestCase {
    pub method: Option<String>,
    pub path: Option<String>,
    pub result: TestCaseResult,
}

/// A test case as a plain value.
pub ghost struct TestCaseView {
    pub method: Option<Seq<char>>,
    pub path: Option<Seq<char>>,
    pub result: ResultView,
}

/// An HTTP status code has three digits.
pub open spec fn valid_status(status_code: u16) -> bool {
    100 <= status_code <= 999
}

/// A server error is a status code of the class 5xx.
pub open spec fn is_server_error(status_code: u16) -> bool {
    500 <= status_code < 600
}

impl FailureKind {
    /// A failure that carries a status code carries a valid one.
    pub open spec fn wf(self) -> bool {
        match self {
            FailureKind::ServerError { status_code } => valid_status(status_code),
            FailureKind::UnexpectedStatusCode { status_code } => valid_status(status_code),
            _ => true,
        }
    }
}

impl View for TestCaseResult {
    type V = ResultView;

    open spec fn view(&self) -> ResultView {
        match *self {
            TestCaseResult::Pass => ResultView::Pass,
            TestCaseResult::Skip { kind, reason } => ResultView::Skip { kind, reason: reason@ },
            TestCaseResult::Recommendation { kind } => ResultView::Recommendation { kind: kind@ },
            TestCaseResult::Failure { kind } => ResultView::Failure { kind },
            TestCaseResult::Error { kind } => ResultView::Error { kind },
        }
    }
}

impl ResultView {
    /// Every status code in the outcome is valid.
    pub open spec fn wf(self) -> bool {
        match self {
            ResultView::Failure { kind } => kind.wf(),
            _ => true,
        }
    }
}

/// The view of an optional text.
pub open spec fn text_view(text: Option<String>) -> Option<Seq<char>> {
    match text {
        Some(text) => Some(text@),
        None => None,
    }
}

impl View for TestCase {
    type V = TestCaseView;

    open spec fn view(&self) -> TestCaseView {
        TestCaseView {
            method: text_view(self.method),
            path: text_view(self.path),
            result: self.result@,
        }
    }
}

/// The views of test cases, one for one.
pub open spec fn case_views(cases: Seq<TestCase>) -> Seq<TestCaseView> {
    cases.map_values(|case: TestCase| case@)
}

impl TestCaseView {
    /// The test case of an endpoint with the given outcome.
    pub open spec fn at(method: Seq<char>, path: Seq<char>, result: ResultView) -> TestCaseView {
        TestCaseView { method: Some(method), path: Some(path), result }
    }

    /// The test case with the given failure at an endpoint.
    pub open spec fn failure(method: Seq<char>, path: Seq<char>, kind: FailureKind) -> TestCaseView {
        TestCaseView::at(method, path, ResultView::Failure { kind })
    }

    /// Every status code in the test case is valid.
    pub open spec fn wf(self) -> bool {
        self.result.wf()
    }
}

/// An outcome that may be missing, as a plain value.
pub open spec fn result_view(result: Option<TestCaseResult>) -> Option<ResultView> {
    match result {
        Some(result) => Some(result@),
        None => None,
    }
}

/// An outcome or an error, the outcome as a plain value.
pub open spec fn verdict_view(result: Result<TestCaseResult, ProcessingError>) -> Result<
    ResultView,
    Fault,
> {
    match result {
        Ok(result) => Ok(result@),
        Err(error) => Err(error.fault()),
    }
}

/// A test case or an error, the test case as a plain value.
pub open spec fn outcome_view(case: Result<TestCase, ProcessingError>) -> Result<
    TestCaseView,
    Fault,
> {
    match case {
        Ok(case) => Ok(case@),
        Err(error) => Err(error.fault()),
    }
}

/// Test cases or an error, the test cases as plain values.
pub open spec fn outcomes_view(cases: Result<Vec<TestCase>, ProcessingError>) -> Result<
    Seq<TestCaseView>,
    Fault,
> {
    match cases {
        Ok(cases) => Ok(case_views(cases@)),
        Err(error) => Err(error.fault()),
    }
}

/// Every status code in the test cases is valid.
pub open spec fn all_wf(cases: Seq<TestCase>) -> bool {
    forall|i: int| 0 <= i < cases.len() ==> (#[trigger] cases[i]).wf()
}

/// The values of `results` where all of them are `Ok`, else the first error among them.
pub open spec fn all_or_first_error<T>(results: Seq<Result<T, Fault>>) -> Result<
    Seq<T>,
    Fault,
>
    decreases results.len(),
{
    if results.len() == 0 {
        Ok(Seq::empty())
    } else {
        match all_or_first_error(results.drop_last()) {
            Err(error) => Err(error),
            Ok(values) => match results.last() {
                Ok(value) => Ok(values.push(value)),
                Err(error) => Err(error),
            },
        }
    }
}

/// Adding one result to the end: an earlier error stays, else the new result decides.
pub proof fn lemma_all_or_first_error_step<T>(
    results: Seq<Result<T, Fault>>,
    done: int,
)
    requires
        0 <= done < results.len(),
    ensures
        all_or_first_error(results.take(done + 1)) == match all_or_first_error(
            results.take(done),
        ) {
            Err(error) => Err(error),
            Ok(values) => match results[done] {
                Ok(value) => Ok(values.push(value)),
                Err(error) => Err(error),
            },
        },
{
    assert(results.take(done + 1).drop_last() =~= results.take(done));
}

/// An error among the first results is the error of them all.
pub proof fn lemma_first_error_stays<T>(results: Seq<Result<T, Fault>>, done: int)
    requires
        0 <= done <= results.len(),
        all_or_first_error(results.take(done)) is Err,
    ensures
        all_or_first_error(results) == all_or_first_error(results.take(done)),
    decreases results.len() - done,
{
    if done < results.len() {
        lemma_all_or_first_error_step(results, done);
        lemma_first_error_stays(results, done + 1);
    } else {
        assert(results.take(done) =~= results);
    }
}

/// No results, no error.
pub proof fn lemma_all_or_first_error_start<T>(results: Seq<Result<T, Fault>>)
    ensures
        all_or_first_error(results.take(0)) == Ok::<Seq<T>, Fault>(Seq::empty()),
{
    assert(results.take(0).len() == 0);
}

/// The values of all `results` in one sequence where all of them are `Ok`, else the first
/// error among them.
pub open spec fn concat_or_first_error<T>(results: Seq<Result<Seq<T>, Fault>>) -> Result<
    Seq<T>,
    Fault,
>
    decreases results.len(),
{
    if results.len() == 0 {
        Ok(Seq::empty())
    } else {
        match concat_or_first_error(results.drop_last()) {
            Err(error) => Err(error),
            Ok(values) => match results.last() {
                Ok(more) => Ok(values + more),
                Err(error) => Err(error),
            },
        }
    }
}

/// Adding one result to the end: an earlier error stays, else the new result decides.
pub proof fn lemma_concat_or_first_error_step<T>(
    results: Seq<Result<Seq<T>, Fault>>,
    done: int,
)
    requires
        0 <= done < results.len(),
    ensures
        concat_or_first_error(results.take(done + 1)) == match concat_or_first_error(
            results.take(done),
        ) {
            Err(error) => Err(error),
            Ok(values) => match results[done] {
                Ok(more) => Ok(values + more),
                Err(error) => Err(error),
            },
        },
{
    assert(results.take(done + 1).drop_last() =~= results.take(done));
}

/// An error among the first results is the error of them all.
pub proof fn lemma_concat_first_error_stays<T>(
    results: Seq<Result<Seq<T>, Fault>>,
    done: int,
)
    requires
        0 <= done <= results.len(),
        concat_or_first_error(results.take(done)) is Err,
    ensures
        concat_or_first_error(results) == concat_or_first_error(results.take(done)),
    decreases results.len() - done,
{
    if done < results.len() {
        lemma_concat_or_first_error_step(results, done);
        lemma_concat_first_error_stays(results, done + 1);
    } else {
        assert(results.take(done) =~= results);
    }
}

/// No results, no error.
pub proof fn lemma_concat_or_first_error_start<T>(results: Seq<Result<Seq<T>, Fault>>)
    ensures
        concat_or_first_error(results.take(0)) == Ok::<Seq<T>, Fault>(Seq::empty()),
{
    assert(results.take(0).len() == 0);
}

impl TestCase {
    /// Every status code in the test case is valid.
    pub open spec fn wf(&self) -> bool {
        self@.wf()
    }

    /// A test case of the given endpoint and outcome.
    pub fn new(method: Option<String>, path: Option<String>, result: TestCaseResult) -> (case:
        TestCase)
        requires
            result@.wf(),
        ensures
            case@ == (TestCaseView {
                method: text_view(method),
                path: text_view(path),
                result: result@,
            }),
            case.wf(),
    {
        TestCase { method, path, result }
    }

    /// A test that passed.
    pub fn pass(method: String, path: String) -> (case: TestCase)
        ensures
            case@ == TestCaseView::at(method@, path@, ResultView::Pass),
            case.wf(),
    {
        TestCase::new(Some(method), Some(path), TestCaseResult::Pass)
    }

    /// A test that is left out of the verdicts, with the reason.
    pub fn skip(method: String, path: String, kind: SkipKind, reason: String) -> (case: TestCase)
        ensures
            case@ == TestCaseView::at(method@, path@, ResultView::Skip { kind, reason: reason@ }),
            case.wf(),
    {
        TestCase::new(Some(method), Some(path), TestCaseResult::Skip { kind, reason })
    }

    /// A recommendation of the named kind rather than a verdict.
    pub fn recommendation(method: String, path: String, kind: String) -> (case: TestCase)
        ensures
            case@ == TestCaseView::at(method@, path@, ResultView::Recommendation { kind: kind@ }),
            case.wf(),
    {
        TestCase::new(Some(method), Some(path), TestCaseResult::Recommendation { kind })
    }

    /// A test on which the engine itself failed; the endpoint may be unknown.
    pub fn error(method: Option<String>, path: Option<String>, kind: ErrorKind) -> (case: TestCase)
        ensures
            case@ == (TestCaseView {
                method: text_view(method),
                path: text_view(path),
                result: ResultView::Error { kind },
            }),
            case.wf(),
    {
        TestCase::new(method, path, TestCaseResult::Error { kind })
    }

    /// A response of the class 5xx.
    pub fn server_error(method: String, path: String, status_code: u16) -> (case: TestCase)
        requires
            valid_status(status_code),
        ensures
            case@ == TestCaseView::failure(
                method@,
                path@,
                FailureKind::ServerError { status_code },
            ),
            case.wf(),
    {
        TestCase::new(
            Some(method),
            Some(path),
            TestCaseResult::Failure { kind: FailureKind::ServerError { status_code } },
        )
    }

    /// A response whose status code the schema does not document.
    pub fn unexpected_status_code(method: String, path: String, status_code: u16) -> (case:
        TestCase)
        requires
            valid_status(status_code),
        ensures
            case@ == TestCaseView::failure(
                method@,
                path@,
                FailureKind::UnexpectedStatusCode { status_code },
            ),
            case.wf(),
    {
        TestCase::new(
            Some(method),
            Some(path),
            TestCaseResult::Failure { kind: FailureKind::UnexpectedStatusCode { status_code } },
        )
    }

    /// A response whose body does not fit the schema.
    pub fn response_conformance(method: String, path: String) -> (case: TestCase)
        ensures
            case@ == TestCaseView::failure(method@, path@, FailureKind::ResponseConformance),
            case.wf(),
    {
        TestCase::new(
            Some(method),
            Some(path),
            TestCaseResult::Failure { kind: FailureKind::ResponseConformance },
        )
    }

    /// A response whose content type the schema does not declare.
    pub fn content_type_conformance(method: String, path: String) -> (case: TestCase)
        ensures
            case@ == TestCaseView::failure(method@, path@, FailureKind::ContentTypeConformance),
            case.wf(),
    {
        TestCase::new(
            Some(method),
            Some(path),
            TestCaseResult::Failure { kind: FailureKind::ContentTypeConformance },
        )
    }

    /// A response whose media type cannot be read.
    pub fn malformed_media_type(method: String, path: String) -> (case: TestCase)
        ensures
            case@ == TestCaseView::failure(method@, path@, FailureKind::MalformedMediaType),
            case.wf(),
    {
        TestCase::new(
            Some(method),
            Some(path),
            TestCaseResult::Failure { kind: FailureKind::MalformedMediaType },
        )
    }

    /// A response without a content type.
    pub fn missing_content_type(method: String, path: String) -> (case: TestCase)
        ensures
            case@ == TestCaseView::failure(method@, path@, FailureKind::MissingContentType),
            case.wf(),
    {
        TestCase::new(
            Some(method),
            Some(path),
            TestCaseResult::Failure { kind: FailureKind::MissingContentType },
        )
    }

    /// A response whose headers do not fit the schema.
    pub fn response_headers_conformance(method: String, path: String) -> (case: TestCase)
        ensures
            case@ == TestCaseView::failure(
                method@,
                path@,
                FailureKind::ResponseHeadersConformance,
            ),
            case.wf(),
    {
        TestCase::new(
            Some(method),
            Some(path),
            TestCaseResult::Failure { kind: FailureKind::ResponseHeadersConformance },
        )
    }

    /// A request that was not answered in time.
    pub fn request_timeout(method: String, path: String) -> (case: TestCase)
        ensures
            case@ == TestCaseView::failure(method@, path@, FailureKind::RequestTimeout),
            case.wf(),
    {
        TestCase::new(
            Some(method),
            Some(path),
            TestCaseResult::Failure { kind: FailureKind::RequestTimeout },
        )
    }
}

} // verus!
