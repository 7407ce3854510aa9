//! RESTler: the network log of the test run, and the buckets of requests that the server
//! answered with an error.

use crate::error::{Fault, ProcessingError};
use crate::output::{
    all_or_first_error, all_wf, case_views, concat_or_first_error, is_server_error,
    lemma_all_or_first_error_start, lemma_all_or_first_error_step,
    lemma_concat_first_error_stays, lemma_concat_or_first_error_start,
    lemma_concat_or_first_error_step, lemma_first_error_stays, outcome_view, outcomes_view,
    FailureKind, ResultView, TestCase, TestCaseView,
};
use crate::pattern::{Expression, 
    captured_status, captures, captures_all, compiled, group_text, groups_view,
    matches_view, regex_captures, regex_captures_all, regex_compiles, status_in,
    text_of, Group, GroupView,
};
use crate::text::{
    behind_first, file_stem, pieces, split, starts_with, stem_of, text_views, views,
};
use crate::web::{path_of_target, target_path};
use vstd::prelude::*;
use vstd::string::*;

verus! {

/// One request with the status line of its response: the method in group 1, the request
/// target in group 2, the status code in group 3.
pub const TEST_CASE: &'static str =
    r"(?s)Sending: '(\w+?) (.+?) HTTP.+?Received: 'HTTP/[0-2].[0-9] ([0-9]{3})";

/// The number of requests that the test run made, in group 1.
pub const TOTAL: &'static str = r"main_driver': ([0-9]+)";

/// An endpoint of the main log: its path in group 1, its method in group 2.
pub const ENDPOINTS: &'static str = r"(?s)Endpoint - (.+?)\n.+?restler_static_string: '(.+?) '";

pub const RENDERING_SEQUENCE: &'static str = "Generation-1: Rendering Sequence";

pub const RENDERING_REQUEST: &'static str = "Rendering request";

/// Whether the regex engine accepts the expressions for the network log.
pub open spec fn expressions_compile() -> bool {
    regex_compiles(TEST_CASE@) && regex_compiles(TOTAL@)
}

/// The test case of one request of the network log, from the groups of `TEST_CASE`: a
/// server error for a status code of the class 5xx, else a pass. The request target is
/// reduced to its path.
pub open spec fn request_outcome(groups: Seq<Option<GroupView>>) -> Result<
    TestCaseView,
    Fault,
> {
    match (group_text(groups, 1), group_text(groups, 2), captured_status(groups, 3)) {
        (Some(method), Some(target), Some(status_code)) => match target_path(target) {
            Some(path) => if is_server_error(status_code) {
                Ok(TestCaseView::failure(method, path, FailureKind::ServerError { status_code }))
            } else {
                Ok(TestCaseView::at(method, path, ResultView::Pass))
            },
            None => Err(Fault::Url),
        },
        _ => Err(Fault::Malformed),
    }
}

/// The outcome of each request.
pub open spec fn request_outcomes(requests: Seq<Seq<Option<GroupView>>>) -> Seq<
    Result<TestCaseView, Fault>,
> {
    requests.map_values(|groups: Seq<Option<GroupView>>| request_outcome(groups))
}

/// The test cases of one rendered sequence: one for each request in it.
pub open spec fn processed_block(block: Seq<char>) -> Result<Seq<TestCaseView>, Fault> {
    all_or_first_error(request_outcomes(regex_captures_all(TEST_CASE@, block)))
}

/// The outcome of each rendered sequence.
pub open spec fn block_outcomes(blocks: Seq<Seq<char>>) -> Seq<
    Result<Seq<TestCaseView>, Fault>,
> {
    blocks.map_values(|block: Seq<char>| processed_block(block))
}

/// Whether the main log states how many requests were made.
pub open spec fn states_total(main_log: Seq<char>) -> bool {
    match regex_captures(TOTAL@, main_log) {
        Some(groups) => match group_text(groups, 1) {
            Some(digits) => crate::text::parsed_number(digits, usize::MAX + 1) is Some,
            None => false,
        },
        None => false,
    }
}

/// The test cases of a test run: those of each rendered sequence of the network log, in
/// the order of the log. What stands before the first sequence is none. A main log that
/// does not state the number of requests is malformed.
pub open spec fn processed_network_log(main_log: Seq<char>, network_log: Seq<char>) -> Result<
    Seq<TestCaseView>,
    Fault,
> {
    if !expressions_compile() {
        Err(Fault::Pattern)
    } else if !states_total(main_log) {
        Err(Fault::Malformed)
    } else {
        concat_or_first_error(
            block_outcomes(behind_first(pieces(network_log, RENDERING_SEQUENCE@))),
        )
    }
}

/// The test case of one request of the network log, from the groups of `TEST_CASE`.
pub fn classify(groups: &Vec<Option<Group>>) -> (outcome: Result<TestCase, ProcessingError>)
    ensures
        outcome_view(outcome) == request_outcome(groups_view(groups@)),
        outcome matches Ok(c) ==> c.wf(),
{
    match (text_of(groups, 1), text_of(groups, 2), status_in(groups, 3)) {
        (Some(method), Some(target), Some(status_code)) => {
            let path = path_of_target(target)?;
            if 500 <= status_code && status_code < 600 {
                Ok(TestCase::server_error(method.to_owned(), path, status_code))
            } else {
                Ok(TestCase::pass(method.to_owned(), path))
            }
        },
        _ => Err(ProcessingError::Malformed),
    }
}

/// The test cases of the requests that `TEST_CASE` found in one rendered sequence.
pub fn classify_all(requests: &Vec<Vec<Option<Group>>>) -> (cases: Result<
    Vec<TestCase>,
    ProcessingError,
>)
    ensures
        outcomes_view(cases) == all_or_first_error(request_outcomes(matches_view(requests@))),
        cases matches Ok(c) ==> all_wf(c@),
{
    let ghost outcomes = request_outcomes(matches_view(requests@));
    let mut cases: Vec<TestCase> = Vec::new();
    let mut at: usize = 0;
    proof {
        lemma_all_or_first_error_start(outcomes);
        assert(case_views(cases@) =~= Seq::empty());
    }
    while at < requests.len()
        invariant
            at <= requests.len(),
            outcomes == request_outcomes(matches_view(requests@)),
            all_or_first_error(outcomes.take(at as int)) == Ok::<
                Seq<TestCaseView>,
                Fault,
            >(case_views(cases@)),
            all_wf(cases@),
        decreases requests.len() - at,
    {
        proof {
            lemma_all_or_first_error_step(outcomes, at as int);
            assert(matches_view(requests@)[at as int] == groups_view(requests@[at as int]@));
        }
        let ghost before = case_views(cases@);
        match classify(&requests[at]) {
            Ok(case) => {
                cases.push(case);
                assert(case_views(cases@) =~= before.push(case@));
            },
            Err(error) => {
                proof {
                    lemma_first_error_stays(outcomes, at + 1);
                }
                return Err(error);
            },
        }
        at = at + 1;
    }
    assert(outcomes.take(at as int) =~= outcomes);
    Ok(cases)
}

/// The compiled expressions for the network log.
pub struct Patterns {
    pub test_case: Expression,
    pub total: Expression,
}

impl Patterns {
    /// Each expression is compiled from its source text.
    pub open spec fn wf(&self) -> bool {
        &&& expressions_compile()
        &&& self.test_case@ == TEST_CASE@
        &&& self.total@ == TOTAL@
    }

    /// Compiles the expressions.
    pub fn new() -> (patterns: Result<Patterns, ProcessingError>)
        ensures
            patterns is Ok == expressions_compile(),
            patterns matches Ok(p) ==> p.wf(),
            patterns matches Err(error) ==> error.fault() == Fault::Pattern,
    {
        let test_case = compiled(TEST_CASE)?;
        let total = compiled(TOTAL)?;
        Ok(Patterns { test_case, total })
    }

    /// Whether the main log states how many requests were made.
    pub fn has_total(&self, main_log: &str) -> (yes: bool)
        requires
            self.wf(),
        ensures
            yes == states_total(main_log@),
    {
        match captures(&self.total, main_log) {
            Some(groups) => match text_of(&groups, 1) {
                Some(digits) => crate::text::parse_usize(digits).is_some(),
                None => false,
            },
            None => false,
        }
    }

    /// The test cases of one rendered sequence.
    pub fn process_block(&self, block: &str) -> (cases: Result<Vec<TestCase>, ProcessingError>)
        requires
            self.wf(),
        ensures
            outcomes_view(cases) == processed_block(block@),
            cases matches Ok(c) ==> all_wf(c@),
    {
        let requests = captures_all(&self.test_case, block);
        classify_all(&requests)
    }
}

/// The test cases of a test run, from the text of its main log and of its network log.
#[verifier::loop_isolation(false)]
pub fn process_network_log(main_log: &str, network_log: &str) -> (cases: Result<
    Vec<TestCase>,
    ProcessingError,
>)
    ensures
        outcomes_view(cases) == processed_network_log(main_log@, network_log@),
        cases matches Ok(c) ==> all_wf(c@),
{
    let patterns = Patterns::new()?;
    if !patterns.has_total(main_log) {
        return Err(ProcessingError::Malformed);
    }
    proof {
        reveal_strlit("Generation-1: Rendering Sequence");
    }
    let blocks = split(network_log, RENDERING_SEQUENCE);
    let ghost outcomes = block_outcomes(behind_first(views(blocks@)));
    let mut cases: Vec<TestCase> = Vec::new();
    let mut at: usize = 1;
    proof {
        lemma_concat_or_first_error_start(outcomes);
        assert(case_views(cases@) =~= Seq::empty());
    }
    while at < blocks.len()
        invariant
            1 <= at <= blocks.len(),
            concat_or_first_error(outcomes.take(at - 1)) == Ok::<
                Seq<TestCaseView>,
                Fault,
            >(case_views(cases@)),
            all_wf(cases@),
        decreases blocks.len() - at,
    {
        proof {
            lemma_concat_or_first_error_step(outcomes, at - 1);
            assert(behind_first(views(blocks@))[at - 1] == blocks@[at as int]@);
        }
        let ghost before = cases@;
        match patterns.process_block(blocks[at]) {
            Ok(mut more) => {
                let ghost added = more@;
                cases.append(&mut more);
                assert(case_views(cases@) =~= case_views(before) + case_views(added));
            },
            Err(error) => {
                proof {
                    lemma_concat_first_error_stays(outcomes, at as int);
                }
                return Err(error);
            },
        }
        at = at + 1;
    }
    assert(outcomes.take(at - 1) =~= outcomes);
    Ok(cases)
}

/// The endpoints that the main log renders requests for, as `(method, path)`, in the order
/// of the log; `found` holds the groups of `ENDPOINTS` in each part of the log behind a
/// rendering mark.
pub open spec fn endpoints_of(found: Seq<Option<Seq<Option<GroupView>>>>) -> Result<
    Seq<(Seq<char>, Seq<char>)>,
    Fault,
> {
    all_or_first_error(
        found.map_values(
            |groups: Option<Seq<Option<GroupView>>>|
                match groups {
                    Some(groups) => match (group_text(groups, 2), group_text(groups, 1)) {
                        (Some(method), Some(path)) => Ok((method, path)),
                        _ => Err(Fault::Malformed),
                    },
                    None => Err(Fault::Malformed),
                },
        ),
    )
}

/// The endpoints of the main log.
pub open spec fn processed_main(content: Seq<char>) -> Result<
    Seq<(Seq<char>, Seq<char>)>,
    Fault,
> {
    if regex_compiles(ENDPOINTS@) {
        endpoints_of(
            behind_first(pieces(content, RENDERING_REQUEST@)).map_values(
                |block: Seq<char>| regex_captures(ENDPOINTS@, block),
            ),
        )
    } else {
        Err(Fault::Pattern)
    }
}

/// Pairs of texts as plain values.
pub open spec fn pair_views(pairs: Seq<(String, String)>) -> Seq<(Seq<char>, Seq<char>)> {
    pairs.map_values(|pair: (String, String)| (pair.0@, pair.1@))
}

/// The endpoints that the main log renders requests for, as `(method, path)`.
#[verifier::loop_isolation(false)]
pub fn process_main(content: &str) -> (endpoints: Result<Vec<(String, String)>, ProcessingError>)
    ensures
        endpoints is Ok == processed_main(content@) is Ok,
        endpoints matches Ok(found) ==> processed_main(content@) == Ok::<
            Seq<(Seq<char>, Seq<char>)>,
            Fault,
        >(pair_views(found@)),
        endpoints matches Err(error) ==> processed_main(content@) == Err::<
            Seq<(Seq<char>, Seq<char>)>,
            Fault,
        >(error.fault()),
{
    let pattern = compiled(ENDPOINTS)?;
    proof {
        reveal_strlit("Rendering request");
    }
    let blocks = split(content, RENDERING_REQUEST);
    let ghost found = behind_first(views(blocks@)).map_values(
        |block: Seq<char>| regex_captures(ENDPOINTS@, block),
    );
    let ghost outcomes = found.map_values(
        |groups: Option<Seq<Option<GroupView>>>|
            match groups {
                Some(groups) => match (group_text(groups, 2), group_text(groups, 1)) {
                    (Some(method), Some(path)) => Ok::<(Seq<char>, Seq<char>), Fault>(
                        (method, path),
                    ),
                    _ => Err(Fault::Malformed),
                },
                None => Err(Fault::Malformed),
            },
    );
    let mut endpoints: Vec<(String, String)> = Vec::new();
    let mut at: usize = 1;
    proof {
        lemma_all_or_first_error_start(outcomes);
        assert(pair_views(endpoints@) =~= Seq::empty());
    }
    while at < blocks.len()
        invariant
            1 <= at <= blocks.len(),
            all_or_first_error(outcomes.take(at - 1)) == Ok::<
                Seq<(Seq<char>, Seq<char>)>,
                Fault,
            >(pair_views(endpoints@)),
        decreases blocks.len() - at,
    {
        proof {
            lemma_all_or_first_error_step(outcomes, at - 1);
            assert(behind_first(views(blocks@))[at - 1] == blocks@[at as int]@);
        }
        let ghost before = pair_views(endpoints@);
        let groups = captures(&pattern, blocks[at]);
        let endpoint = match &groups {
            Some(groups) => match (text_of(groups, 2), text_of(groups, 1)) {
                (Some(method), Some(path)) => Some((method.to_owned(), path.to_owned())),
                _ => None,
            },
            None => None,
        };
        match endpoint {
            Some(endpoint) => {
                endpoints.push(endpoint);
                assert(pair_views(endpoints@) =~= before.push((endpoint.0@, endpoint.1@)));
            },
            None => {
                proof {
                    lemma_first_error_stays(outcomes, at as int);
                }
                return Err(ProcessingError::Malformed);
            },
        }
        at = at + 1;
    }
    assert(outcomes.take(at - 1) =~= outcomes);
    Ok(endpoints)
}

/// The directory of the logs of a test run, given the entries of the directory of results
/// by their paths: the results hold one experiment, the first entry, and the logs stand in
/// it. `None` where the results are empty.
pub fn get_logs_directory(entries: &Vec<String>) -> (directory: Option<String>)
    ensures
        crate::output::text_view(directory) == if entries@.len() > 0 {
            Some(entries@[0]@ + "/logs"@)
        } else {
            None
        },
{
    if entries.len() > 0 {
        Some(entries[0].clone().concat("/logs"))
    } else {
        None
    }
}

/// What the stem of the network log's file name starts with.
pub const NETWORK_LOG: &'static str = "network.testing";

/// Whether a file of the logs directory is the network log, by its name.
pub open spec fn is_network_log(name: Seq<char>) -> bool {
    match stem_of(name) {
        Some(stem) => NETWORK_LOG@.is_prefix_of(stem),
        None => false,
    }
}

/// `at` is the first of the names that is a network log's.
pub open spec fn is_log_file(names: Seq<Seq<char>>, at: int) -> bool {
    &&& 0 <= at < names.len()
    &&& is_network_log(names[at])
    &&& forall|earlier: int| 0 <= earlier < at ==> !is_network_log(#[trigger] names[earlier])
}

/// Which of the files of the logs directory is the network log: the first whose name says
/// so. `None` where there is none.
pub fn find_log_file(names: &Vec<String>) -> (found: Option<usize>)
    ensures
        found matches Some(at) ==> is_log_file(text_views(names@), at as int),
        found is None ==> forall|at: int|
            0 <= at < names.len() ==> !is_network_log(#[trigger] text_views(names@)[at]),
{
    let mut at: usize = 0;
    while at < names.len()
        invariant
            at <= names.len(),
            forall|earlier: int|
                0 <= earlier < at ==> !is_network_log(#[trigger] text_views(names@)[earlier]),
        decreases names.len() - at,
    {
        let is_log = match file_stem(names[at].as_str()) {
            Some(stem) => starts_with(stem, NETWORK_LOG),
            None => false,
        };
        if is_log {
            return Some(at);
        }
        at = at + 1;
    }
    None
}

} // verus!
