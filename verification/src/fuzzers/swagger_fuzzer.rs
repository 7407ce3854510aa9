//! Swagger-fuzzer: the falsifying examples in the output of a test run.

use crate::error::{Fault, ProcessingError};
use crate::output::{
    all_or_first_error, all_wf, case_views, lemma_all_or_first_error_start,
    lemma_all_or_first_error_step, lemma_first_error_stays, outcome_view, outcomes_view,
    ErrorKind, FailureKind, ResultView, TestCase, TestCaseResult, TestCaseView,
};
use crate::pattern::{Expression, 
    captures, compiled, found_view, group_text, regex_captures, regex_compiles, text_of, Group, GroupView,
};
use crate::text::{behind_first, contains, occurs_in, pieces, split, views};
use crate::web::{normalized_path, url_path};
use vstd::prelude::*;

verus! {

/// The request as a command line: its method in group 1, its URL in group 2.
pub const CURL: &'static str = r"Curl command: curl -i -X (\w+) .+ '(http://.+)'";

pub const FALSIFYING_EXAMPLE: &'static str = "Falsifying example:";

/// The endpoint of an example as `(method, path)`, from the groups of `CURL`: none where
/// the example shows no command line; else the URL must be one, and is reduced to its path.
pub open spec fn endpoint_of(found: Option<Seq<Option<GroupView>>>) -> Result<
    Option<(Seq<char>, Seq<char>)>,
    Fault,
> {
    match found {
        Some(groups) => match (group_text(groups, 1), group_text(groups, 2)) {
            (Some(method), Some(url)) => match url_path(url) {
                Some(path) => Ok(Some((method, path))),
                None => Err(Fault::Url),
            },
            _ => Err(Fault::Malformed),
        },
        None => Ok(None),
    }
}

/// The outcome of an example, by the first rule that applies: the schema is invalid; the
/// content type of the response is not the documented one.
pub open spec fn verdict(case: Seq<char>) -> Result<ResultView, Fault> {
    if occurs_in(case, "Exception: ('Invalid',"@) {
        Ok(ResultView::Error { kind: ErrorKind::Schema })
    } else if occurs_in(case, "AssertionError: Response content-type"@) {
        Ok(ResultView::Failure { kind: FailureKind::ContentTypeConformance })
    } else {
        Err(Fault::Unclassified)
    }
}

/// The test case of one example, given the groups of `CURL` in it.
pub open spec fn classified(case: Seq<char>, found: Option<Seq<Option<GroupView>>>) -> Result<
    TestCaseView,
    Fault,
> {
    match endpoint_of(found) {
        Ok(endpoint) => match verdict(case) {
            Ok(result) => Ok(
                match endpoint {
                    Some((method, path)) => TestCaseView::at(method, path, result),
                    None => TestCaseView { method: None, path: None, result },
                },
            ),
            Err(error) => Err(error),
        },
        Err(error) => Err(error),
    }
}

/// The test case of one example.
pub open spec fn processed_case(case: Seq<char>) -> Result<TestCaseView, Fault> {
    classified(case, regex_captures(CURL@, case))
}

/// The outcome of each example.
pub open spec fn case_outcomes(examples: Seq<Seq<char>>) -> Seq<
    Result<TestCaseView, Fault>,
> {
    examples.map_values(|case: Seq<char>| processed_case(case))
}

/// The test cases of a test run: one for each falsifying example, in their order.
pub open spec fn processed_stdout(content: Seq<char>) -> Result<Seq<TestCaseView>, Fault> {
    if regex_compiles(CURL@) {
        all_or_first_error(case_outcomes(behind_first(pieces(content, FALSIFYING_EXAMPLE@))))
    } else {
        Err(Fault::Pattern)
    }
}

/// The outcome of an example.
pub fn judge(case: &str) -> (result: Result<TestCaseResult, ProcessingError>)
    ensures
        crate::output::verdict_view(result) == verdict(case@),
        result matches Ok(outcome) ==> outcome@.wf(),
{
    if contains(case, "Exception: ('Invalid',") {
        Ok(TestCaseResult::Error { kind: ErrorKind::Schema })
    } else if contains(case, "AssertionError: Response content-type") {
        Ok(TestCaseResult::Failure { kind: FailureKind::ContentTypeConformance })
    } else {
        Err(ProcessingError::Unclassified)
    }
}

/// The test case of one example, given the groups of `CURL` in it.
pub fn classify(case: &str, found: &Option<Vec<Option<Group>>>) -> (outcome: Result<
    TestCase,
    ProcessingError,
>)
    ensures
        outcome_view(outcome) == classified(case@, found_view(*found)),
        outcome matches Ok(c) ==> c.wf(),
{
    let (method, path) = match found {
        Some(groups) => match (text_of(groups, 1), text_of(groups, 2)) {
            (Some(method), Some(url)) => {
                let path = normalized_path(url)?;
                (Some(method.to_owned()), Some(path))
            },
            _ => { return Err(ProcessingError::Malformed); },
        },
        None => (None, None),
    };
    let result = judge(case)?;
    Ok(TestCase::new(method, path, result))
}

/// The test case of one example.
pub fn process_case(pattern: &Expression, case: &str) -> (outcome: Result<
    TestCase,
    ProcessingError,
>)
    requires
        pattern@ == CURL@,
    ensures
        outcome_view(outcome) == processed_case(case@),
        outcome matches Ok(c) ==> c.wf(),
{
    let found = captures(pattern, case);
    classify(case, &found)
}

/// The test cases of a test run.
#[verifier::loop_isolation(false)]
pub fn process_stdout(content: &str) -> (cases: Result<Vec<TestCase>, ProcessingError>)
    ensures
        outcomes_view(cases) == processed_stdout(content@),
        cases matches Ok(c) ==> all_wf(c@),
{
    let pattern = compiled(CURL)?;
    proof {
        reveal_strlit("Falsifying example:");
    }
    let examples = split(content, FALSIFYING_EXAMPLE);
    let ghost outcomes = case_outcomes(behind_first(views(examples@)));
    let mut cases: Vec<TestCase> = Vec::new();
    let mut at: usize = 1;
    proof {
        lemma_all_or_first_error_start(outcomes);
        assert(case_views(cases@) =~= Seq::empty());
    }
    while at < examples.len()
        invariant
            1 <= at <= examples.len(),
            all_or_first_error(outcomes.take(at - 1)) == Ok::<Seq<TestCaseView>, Fault>(
                case_views(cases@),
            ),
            all_wf(cases@),
        decreases examples.len() - at,
    {
        proof {
            lemma_all_or_first_error_step(outcomes, at - 1);
            assert(behind_first(views(examples@))[at - 1] == examples@[at as int]@);
        }
        let ghost before = case_views(cases@);
        match process_case(&pattern, examples[at]) {
            Ok(case) => {
                cases.push(case);
                assert(case_views(cases@) =~= before.push(case@));
            },
            Err(error) => {
                proof {
                    lemma_first_error_stays(outcomes, at as int);
                }
                return Err(error);
            },
        }
        at = at + 1;
    }
    assert(outcomes.take(at - 1) =~= outcomes);
    Ok(cases)
}

} // verus!
