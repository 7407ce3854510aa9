//! CATS: one report file per executed test, a JSON document behind a short script prefix.

use crate::error::{Fault, ProcessingError};
use crate::json::{json_document, read, Json, JsonView};
use crate::output::{
    all_or_first_error, all_wf, case_views, lemma_all_or_first_error_start,
    lemma_all_or_first_error_step, lemma_first_error_stays, outcome_view,
    outcomes_view, verdict_view, ErrorKind, FailureKind, ResultView, SkipKind, TestCase, TestCaseResult,
    TestCaseView,
};
use crate::pattern::{Expression, compiled, is_match, regex_compiles, regex_is_match};
use crate::text::{contains, from_first, occurs_in, same_text, suffix_from_first};
use vstd::prelude::*;

verus! {

/// The engine's own check failed to run.
pub const FAILED_FUZZER: &'static str = r"Fuzzer \[.+?\] failed due to";

/// The response is as the API schema says.
pub const PASSED_CASE: &'static str =
    r"Call returned as expected\. Response code [0-9]+ matches the contract\. Response body matches the contract!";

pub const EXPECTED_FAILURE: &'static str = "Request failed as expected for http method";

pub const UNDOCUMENTED_CODE: &'static str = "Call returned as expected, but with undocumented code";

pub const BODY_MISMATCH: &'static str = "Response body does NOT match the contract!";

/// Checks that only recommend a naming style or a good practice of API design.
pub open spec fn is_recommendation_name(check: Seq<char>) -> bool {
    ||| check == "NamingsContractInfoFuzzer"@
    ||| check == "PathTagsContractInfoFuzzer"@
    ||| check == "RecommendedHeadersContractInfoFuzzer"@
    ||| check == "TopLevelElementsContractInfoFuzzer"@
    ||| check == "VersionsContractInfoFuzzer"@
    ||| check == "CheckSecurityHeadersFuzzer"@
    ||| check == "XmlContentTypeContractInfoFuzzer"@
    ||| check == "UnsupportedAcceptHeadersFuzzer"@
    ||| check == "DummyAcceptHeadersFuzzer"@
    ||| check == "DummyContentTypeHeadersFuzzer"@
    ||| check == "UnsupportedTypeHeadersFuzzer"@
}

/// Checks that expect a fixed class of status codes whatever the target's own validation
/// says, so that their verdicts do not carry over from one target to another.
pub open spec fn is_not_universal_name(check: Seq<char>) -> bool {
    ||| check == "LeadingSpacesInFieldsTrimValidateFuzzer"@
    ||| check == "TrailingSpacesInFieldsTrimValidateFuzzer"@
    ||| check == "HappyFuzzer"@
    ||| check == "ExtraHeaderFuzzer"@
    ||| check == "NewFieldsFuzzer"@
    ||| check == "EmptyStringValuesInFieldsFuzzer"@
    ||| check == "StringFormatAlmostValidValuesFuzzer"@
    ||| check == "DuplicateHeaderFuzzer"@
    ||| check == "SpacesOnlyInFieldsTrimValidateFuzzer"@
    ||| check == "NullValuesInFieldsFuzzer"@
    ||| check == "RemoveFieldsFuzzer"@
    ||| check == "DecimalValuesInIntegerFieldsFuzzer"@
    ||| check == "BooleanFieldsFuzzer"@
    ||| check == "StringFieldsLeftBoundaryFuzzer"@
    ||| check == "StringFieldsRightBoundaryFuzzer"@
    ||| check == "StringFormatTotallyWrongValuesFuzzer"@
    ||| check == "ExtremeNegativeValueIntegerFieldsFuzzer"@
    ||| check == "ExtremePositiveValueInIntegerFieldsFuzzer"@
    ||| check == "StringsInNumericFieldsFuzzer"@
    ||| check == "BypassAuthenticationFuzzer"@
    ||| check == "VeryLargeStringsFuzzer"@
    ||| check == "InvalidValuesInEnumsFieldsFuzzer"@
    ||| check == "IntegerFieldsLeftBoundaryFuzzer"@
    ||| check == "IntegerFieldsRightBoundaryFuzzer"@
    ||| check == "DecimalFieldsLeftBoundaryFuzzer"@
    ||| check == "DecimalFieldsRightBoundaryFuzzer"@
    ||| check == "ExtremePositiveValueDecimalFieldsFuzzer"@
    ||| check == "ExtremeNegativeValueDecimalFieldsFuzzer"@
}

/// Checks left out because every endpoint is tested on its own.
pub open spec fn is_ignored_name(check: Seq<char>) -> bool {
    occurs_in(check, "HttpMethodsFuzzer"@)
}

/// What the test cases of a suppressed check are reported as, whatever the check found.
pub open spec fn suppression(check: Seq<char>) -> Option<ResultView> {
    if is_recommendation_name(check) {
        Some(ResultView::Recommendation { kind: check })
    } else if is_ignored_name(check) {
        Some(ResultView::Skip { kind: SkipKind::NotInteresting, reason: check })
    } else if is_not_universal_name(check) {
        Some(ResultView::Skip { kind: SkipKind::InvalidAssumption, reason: check })
    } else {
        None
    }
}

/// The request that a report is about: method, path and the status code of the response.
pub open spec fn request_of(report: JsonView) -> Option<(Seq<char>, Seq<char>, u64)> {
    match (report.member_text("path"@), report.member("response"@)) {
        (Some(path), Some(response)) => match (
            response.member_text("httpMethod"@),
            response.member("responseCode"@),
        ) {
            (Some(method), Some(code)) => match code.number() {
                Some(code) => Some((method, path, code)),
                None => None,
            },
            _ => None,
        },
        _ => None,
    }
}

/// The outcome of a test that ran, by the first rule that applies: the check is suppressed;
/// the server failed; the status code is not documented, which must then be a valid one;
/// the body does not fit the schema; the engine is content.
pub open spec fn verdict(
    check: Seq<char>,
    details: Seq<char>,
    status_code: u64,
    matches_contract: bool,
) -> Result<ResultView, Fault> {
    if suppression(check) is Some {
        Ok(suppression(check)->0)
    } else if 500 <= status_code < 600 {
        Ok(ResultView::Failure { kind: FailureKind::ServerError { status_code: status_code as u16 } })
    } else if occurs_in(details, UNDOCUMENTED_CODE@) {
        if 100 <= status_code <= 999 {
            Ok(
                ResultView::Failure {
                    kind: FailureKind::UnexpectedStatusCode { status_code: status_code as u16 },
                },
            )
        } else {
            Err(Fault::Malformed)
        }
    } else if occurs_in(details, BODY_MISMATCH@) {
        Ok(ResultView::Failure { kind: FailureKind::ResponseConformance })
    } else if occurs_in(details, EXPECTED_FAILURE@) || matches_contract {
        Ok(ResultView::Pass)
    } else {
        Err(Fault::Unclassified)
    }
}

/// The test case that a report stands for. `check_failed` and `matches_contract` say
/// whether the report's details match `FAILED_FUZZER` and `PASSED_CASE`.
///
/// A report without the name of its check or without details is malformed. Where the check
/// itself failed, the case is an internal error of no endpoint. Any other report must name
/// its request, and gets the `verdict` of its check.
pub open spec fn classified(report: JsonView, check_failed: bool, matches_contract: bool) -> Result<
    TestCaseView,
    Fault,
> {
    match (report.member_text("fuzzer"@), report.member_text("resultDetails"@)) {
        (Some(check), Some(details)) => if check_failed {
            Ok(
                TestCaseView {
                    method: None,
                    path: None,
                    result: ResultView::Error { kind: ErrorKind::Internal },
                },
            )
        } else {
            match request_of(report) {
                Some((method, path, status_code)) => match verdict(
                    check,
                    details,
                    status_code,
                    matches_contract,
                ) {
                    Ok(result) => Ok(TestCaseView::at(method, path, result)),
                    Err(error) => Err(error),
                },
                None => Err(Fault::Malformed),
            }
        },
        _ => Err(Fault::Malformed),
    }
}

/// Whether the regex engine accepts the parser's expressions.
pub open spec fn expressions_compile() -> bool {
    regex_compiles(FAILED_FUZZER@) && regex_compiles(PASSED_CASE@)
}

/// Whether the details of a report match `pattern`; a report without details matches nothing.
pub open spec fn details_match(report: JsonView, pattern: Seq<char>) -> bool {
    match report.member_text("resultDetails"@) {
        Some(details) => regex_is_match(pattern, details),
        None => false,
    }
}

/// The test case of one report file: the JSON document that starts at the file's first
/// brace is read and classified.
pub open spec fn processed_file(content: Seq<char>) -> Result<TestCaseView, Fault> {
    if !expressions_compile() {
        Err(Fault::Pattern)
    } else if !occurs_in(content, "{"@) {
        Err(Fault::Malformed)
    } else {
        match json_document(suffix_from_first(content, "{"@)) {
            Some(report) => classified(
                report,
                details_match(report, FAILED_FUZZER@),
                details_match(report, PASSED_CASE@),
            ),
            None => Err(Fault::Json),
        }
    }
}

/// The test cases of report files, one for one, or the error of the first file that has one.
pub open spec fn processed_files(contents: Seq<String>) -> Result<
    Seq<TestCaseView>,
    Fault,
> {
    if expressions_compile() {
        all_or_first_error(file_outcomes(contents))
    } else {
        Err(Fault::Pattern)
    }
}

/// The outcome of each report file.
pub open spec fn file_outcomes(contents: Seq<String>) -> Seq<Result<TestCaseView, Fault>> {
    contents.map_values(|content: String| processed_file(content@))
}

/// A report of a suppressed check whose check ran is never judged: whatever the response
/// was, its test case is the recommendation or the skip that stands for the check.
pub proof fn lemma_suppressed_is_never_judged(report: JsonView, matches_contract: bool)
    requires
        report.member_text("fuzzer"@) is Some,
        suppression(report.member_text("fuzzer"@)->0) is Some,
        classified(report, false, matches_contract) is Ok,
    ensures
        classified(report, false, matches_contract)->Ok_0.result == suppression(
            report.member_text("fuzzer"@)->0,
        )->0,
        !(classified(report, false, matches_contract)->Ok_0.result is Pass),
        !(classified(report, false, matches_contract)->Ok_0.result is Failure),
{
}

/// Whether the check only recommends a style or a practice.
pub fn is_recommendation(check: &str) -> (yes: bool)
    ensures
        yes == is_recommendation_name(check@),
{
    same_text(check, "NamingsContractInfoFuzzer")
        || same_text(check, "PathTagsContractInfoFuzzer")
        || same_text(check, "RecommendedHeadersContractInfoFuzzer")
        || same_text(check, "TopLevelElementsContractInfoFuzzer")
        || same_text(check, "VersionsContractInfoFuzzer")
        || same_text(check, "CheckSecurityHeadersFuzzer")
        || same_text(check, "XmlContentTypeContractInfoFuzzer")
        || same_text(check, "UnsupportedAcceptHeadersFuzzer")
        || same_text(check, "DummyAcceptHeadersFuzzer")
        || same_text(check, "DummyContentTypeHeadersFuzzer")
        || same_text(check, "UnsupportedTypeHeadersFuzzer")
}

/// Whether the check's expectations hold for some targets only.
pub fn is_not_universal(check: &str) -> (yes: bool)
    ensures
        yes == is_not_universal_name(check@),
{
    same_text(check, "LeadingSpacesInFieldsTrimValidateFuzzer")
        || same_text(check, "TrailingSpacesInFieldsTrimValidateFuzzer")
        || same_text(check, "HappyFuzzer")
        || same_text(check, "ExtraHeaderFuzzer")
        || same_text(check, "NewFieldsFuzzer")
        || same_text(check, "EmptyStringValuesInFieldsFuzzer")
        || same_text(check, "StringFormatAlmostValidValuesFuzzer")
        || same_text(check, "DuplicateHeaderFuzzer")
        || same_text(check, "SpacesOnlyInFieldsTrimValidateFuzzer")
        || same_text(check, "NullValuesInFieldsFuzzer")
        || same_text(check, "RemoveFieldsFuzzer")
        || same_text(check, "DecimalValuesInIntegerFieldsFuzzer")
        || same_text(check, "BooleanFieldsFuzzer")
        || same_text(check, "StringFieldsLeftBoundaryFuzzer")
        || same_text(check, "StringFieldsRightBoundaryFuzzer")
        || same_text(check, "StringFormatTotallyWrongValuesFuzzer")
        || same_text(check, "ExtremeNegativeValueIntegerFieldsFuzzer")
        || same_text(check, "ExtremePositiveValueInIntegerFieldsFuzzer")
        || same_text(check, "StringsInNumericFieldsFuzzer")
        || same_text(check, "BypassAuthenticationFuzzer")
        || same_text(check, "VeryLargeStringsFuzzer")
        || same_text(check, "InvalidValuesInEnumsFieldsFuzzer")
        || same_text(check, "IntegerFieldsLeftBoundaryFuzzer")
        || same_text(check, "IntegerFieldsRightBoundaryFuzzer")
        || same_text(check, "DecimalFieldsLeftBoundaryFuzzer")
        || same_text(check, "DecimalFieldsRightBoundaryFuzzer")
        || same_text(check, "ExtremePositiveValueDecimalFieldsFuzzer")
        || same_text(check, "ExtremeNegativeValueDecimalFieldsFuzzer")
}

/// Whether the check is left out altogether.
pub fn is_ignored_fuzzer(check: &str) -> (yes: bool)
    ensures
        yes == is_ignored_name(check@),
{
    contains(check, "HttpMethodsFuzzer")
}

/// Whether the engine is content with the response.
pub fn is_passed(details: &str, matches_contract: bool) -> (yes: bool)
    ensures
        yes == (occurs_in(details@, EXPECTED_FAILURE@) || matches_contract),
{
    contains(details, EXPECTED_FAILURE) || matches_contract
}

/// Whether the response's body does not fit the schema.
pub fn is_response_conformance_error(details: &str) -> (yes: bool)
    ensures
        yes == occurs_in(details@, BODY_MISMATCH@),
{
    contains(details, BODY_MISMATCH)
}

/// Whether the response's status code is not in the schema.
pub fn is_unexpected_response_status(details: &str) -> (yes: bool)
    ensures
        yes == occurs_in(details@, UNDOCUMENTED_CODE@),
{
    contains(details, UNDOCUMENTED_CODE)
}

/// The compiled expressions of this parser.
pub struct Patterns {
    pub failed_fuzzer: Expression,
    pub passed_case: Expression,
}

impl Patterns {
    /// Each expression is compiled from its source text.
    pub open spec fn wf(&self) -> bool {
        &&& expressions_compile()
        &&& self.failed_fuzzer@ == FAILED_FUZZER@
        &&& self.passed_case@ == PASSED_CASE@
    }

    /// Compiles the expressions.
    pub fn new() -> (patterns: Result<Patterns, ProcessingError>)
        ensures
            patterns is Ok == expressions_compile(),
            patterns matches Ok(p) ==> p.wf(),
            patterns matches Err(error) ==> error.fault() == Fault::Pattern,
    {
        let failed_fuzzer = compiled(FAILED_FUZZER)?;
        let passed_case = compiled(PASSED_CASE)?;
        Ok(Patterns { failed_fuzzer, passed_case })
    }

    /// Whether the engine's own check failed to run.
    pub fn is_fuzzer_failure(&self, details: &str) -> (yes: bool)
        requires
            self.wf(),
        ensures
            yes == regex_is_match(FAILED_FUZZER@, details@),
    {
        is_match(&self.failed_fuzzer, details)
    }

    /// Whether the response is as the schema says.
    pub fn matches_contract(&self, details: &str) -> (yes: bool)
        requires
            self.wf(),
        ensures
            yes == regex_is_match(PASSED_CASE@, details@),
    {
        is_match(&self.passed_case, details)
    }
}

/// The outcome of a test that ran.
pub fn judge(check: &str, details: &str, status_code: u64, matches_contract: bool) -> (result:
    Result<TestCaseResult, ProcessingError>)
    ensures
        verdict_view(result) == verdict(check@, details@, status_code, matches_contract),
        result matches Ok(outcome) ==> outcome@.wf(),
{
    if is_recommendation(check) {
        Ok(TestCaseResult::Recommendation { kind: check.to_owned() })
    } else if is_ignored_fuzzer(check) {
        Ok(TestCaseResult::Skip { kind: SkipKind::NotInteresting, reason: check.to_owned() })
    } else if is_not_universal(check) {
        Ok(TestCaseResult::Skip { kind: SkipKind::InvalidAssumption, reason: check.to_owned() })
    } else if 500 <= status_code && status_code < 600 {
        Ok(
            TestCaseResult::Failure {
                kind: FailureKind::ServerError { status_code: status_code as u16 },
            },
        )
    } else if is_unexpected_response_status(details) {
        if 100 <= status_code && status_code <= 999 {
            Ok(
                TestCaseResult::Failure {
                    kind: FailureKind::UnexpectedStatusCode { status_code: status_code as u16 },
                },
            )
        } else {
            Err(ProcessingError::Malformed)
        }
    } else if is_response_conformance_error(details) {
        Ok(TestCaseResult::Failure { kind: FailureKind::ResponseConformance })
    } else if is_passed(details, matches_contract) {
        Ok(TestCaseResult::Pass)
    } else {
        Err(ProcessingError::Unclassified)
    }
}

/// The request that a report is about.
pub fn request<'a>(report: &'a Json) -> (found: Option<(&'a str, &'a str, u64)>)
    ensures
        found is Some == request_of(report@) is Some,
        found matches Some((method, path, status_code)) ==> request_of(report@) == Some(
            (method@, path@, status_code),
        ),
{
    let path = report.get_text("path")?;
    let response = report.get("response")?;
    let method = response.get_text("httpMethod")?;
    let status_code = response.get("responseCode")?.as_u64()?;
    Some((method, path, status_code))
}

/// The test case that a report stands for, given whether its details match `FAILED_FUZZER`
/// and `PASSED_CASE`.
pub fn classify(report: &Json, check_failed: bool, matches_contract: bool) -> (case: Result<
    TestCase,
    ProcessingError,
>)
    ensures
        outcome_view(case) == classified(report@, check_failed, matches_contract),
        case matches Ok(c) ==> c.wf(),
{
    let check = match report.get_text("fuzzer") {
        Some(check) => check,
        None => { return Err(ProcessingError::Malformed); },
    };
    let details = match report.get_text("resultDetails") {
        Some(details) => details,
        None => { return Err(ProcessingError::Malformed); },
    };
    if check_failed {
        return Ok(TestCase::error(None, None, ErrorKind::Internal));
    }
    match request(report) {
        Some((method, path, status_code)) => {
            let result = judge(check, details, status_code, matches_contract)?;
            Ok(TestCase::new(Some(method.to_owned()), Some(path.to_owned()), result))
        },
        None => Err(ProcessingError::Malformed),
    }
}

/// The test case of one report file, with the expressions at hand.
pub fn process_report(patterns: &Patterns, content: &str) -> (case: Result<
    TestCase,
    ProcessingError,
>)
    requires
        patterns.wf(),
    ensures
        outcome_view(case) == processed_file(content@),
        case matches Ok(c) ==> c.wf(),
{
    let document = match from_first(content, "{") {
        Some(document) => document,
        None => { return Err(ProcessingError::Malformed); },
    };
    let report = read(document)?;
    let (check_failed, matches_contract) = match report.get_text("resultDetails") {
        Some(details) => (patterns.is_fuzzer_failure(details), patterns.matches_contract(details)),
        None => (false, false),
    };
    classify(&report, check_failed, matches_contract)
}

/// The test case of one report file.
pub fn process_file(content: &str) -> (case: Result<TestCase, ProcessingError>)
    ensures
        outcome_view(case) == processed_file(content@),
        case matches Ok(c) ==> c.wf(),
{
    let patterns = Patterns::new()?;
    process_report(&patterns, content)
}

/// The test cases of report files, one for one and in their order.
pub fn process_files(contents: &Vec<String>) -> (cases: Result<Vec<TestCase>, ProcessingError>)
    ensures
        outcomes_view(cases) == processed_files(contents@),
        cases matches Ok(c) ==> all_wf(c@),
{
    let ghost outcomes = file_outcomes(contents@);
    let patterns = match Patterns::new() {
        Ok(patterns) => patterns,
        Err(error) => { return Err(error); },
    };
    let mut cases: Vec<TestCase> = Vec::new();
    let mut at: usize = 0;
    proof {
        lemma_all_or_first_error_start(outcomes);
        assert(case_views(cases@) =~= Seq::empty());
    }
    while at < contents.len()
        invariant
            at <= contents.len(),
            patterns.wf(),
            outcomes == file_outcomes(contents@),
            all_or_first_error(outcomes.take(at as int)) == Ok::<
                Seq<TestCaseView>,
                Fault,
            >(case_views(cases@)),
            all_wf(cases@),
        decreases contents.len() - at,
    {
        proof {
            lemma_all_or_first_error_step(outcomes, at as int);
        }
        let ghost before = case_views(cases@);
        match process_report(&patterns, contents[at].as_str()) {
            Ok(case) => {
                cases.push(case);
                assert(case_views(cases@) =~= before.push(case@));
            },
            Err(error) => {
                proof {
                    lemma_first_error_stays(outcomes, at + 1);
                }
                return Err(error);
            },
        }
        at = at + 1;
    }
    assert(outcomes.take(at as int) =~= outcomes);
    Ok(cases)
}

/// The files of a run's directory that hold reports, by their paths.
pub const TEST_FILE: &'static str = "**/Test*.js";

/// Of the paths of a run's directory, those of the report files, in their order; the
/// glob is this parser's own and is refused only where the glob engine refuses it.
pub fn test_files(paths: &Vec<String>) -> (reports: Result<Vec<String>, ProcessingError>)
    ensures
        reports is Ok == crate::search::glob_accepted(TEST_FILE@),
        reports matches Ok(found) ==> crate::text::text_views(found@) == crate::search::selected(
            TEST_FILE@,
            crate::text::text_views(paths@),
        ),
        reports matches Err(error) ==> error.fault() == Fault::Glob,
{
    let matcher = crate::search::compile(TEST_FILE)?;
    Ok(crate::search::select(&matcher, paths))
}

/// Of the paths of a run's directory, the places of those of the report files, in rising
/// order.
pub fn test_file_positions(paths: &Vec<String>) -> (places: Result<Vec<usize>, ProcessingError>)
    ensures
        places is Ok == crate::search::glob_accepted(TEST_FILE@),
        places matches Ok(found) ==> crate::search::place_views(found@)
            == crate::search::matched_positions(TEST_FILE@, crate::text::text_views(paths@))
            && forall|i: int| 0 <= i < found@.len() ==> (#[trigger] found@[i]) < paths@.len(),
        places matches Err(error) ==> error.fault() == Fault::Glob,
{
    let matcher = crate::search::compile(TEST_FILE)?;
    Ok(crate::search::positions(&matcher, paths))
}

} // verus!
