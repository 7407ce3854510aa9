//! TnT-fuzzer: the table of responses that a test run prints.

use crate::error::{Fault, ProcessingError};
use crate::output::{
    all_or_first_error, all_wf, case_views, is_server_error, lemma_all_or_first_error_start,
    lemma_all_or_first_error_step, lemma_first_error_stays, outcome_view, outcomes_view,
    FailureKind, ResultView, TestCase, TestCaseView,
};
use crate::pattern::{read_status, status_written};
use crate::text::{
    after_first, ascii_uppercase, behind_first, lines, lines_of, occurs_in, pieces, same_text,
    split, split_once, strip_prefix, strip_suffix, to_ascii_uppercase, trim, trimmed, views,
};
use crate::web::{normalized_path, url_path};
use vstd::prelude::*;

verus! {

/// The escape sequence that colours a method.
pub const RED: &'static str = "\x1b[31m";

/// The escape sequence that colours a URL.
pub const GREEN: &'static str = "\x1b[32m";

/// The escape sequence that ends a colour.
pub const SUFFIX: &'static str = "\x1b[0m";

pub const TABLE_START: &'static str = "Fetching open API from: ";

/// The text of a coloured cell: what stands between the two escape sequences, without the
/// whitespace around them and inside them. `None` where the cell is not coloured so.
pub open spec fn uncoloured(value: Seq<char>, prefix: Seq<char>, suffix: Seq<char>) -> Option<
    Seq<char>,
> {
    let cell = trimmed(value);
    if prefix.is_prefix_of(cell) && suffix.is_suffix_of(cell.skip(prefix.len() as int)) {
        let inner = cell.skip(prefix.len() as int);
        Some(trimmed(inner.take(inner.len() - suffix.len())))
    } else {
        None
    }
}

/// The outcome of a response, by the first rule that applies: its status code is not
/// documented, which the table shows as the reason `None`; the server failed; else the
/// response is as documented.
pub open spec fn verdict(status_code: u16, reason: Seq<char>) -> ResultView {
    if reason == "None"@ {
        ResultView::Failure { kind: FailureKind::UnexpectedStatusCode { status_code } }
    } else if is_server_error(status_code) {
        ResultView::Failure { kind: FailureKind::ServerError { status_code } }
    } else {
        ResultView::Pass
    }
}

/// The test case of one row of the table. Its cells are the coloured method, the coloured
/// URL, a cell that is passed over, the status code and the documented reason; the method
/// is put in upper case, the URL reduced to its path. A row of another shape is malformed,
/// and a URL that is none is refused as such.
pub open spec fn processed_row(row: Seq<char>) -> Result<TestCaseView, Fault> {
    let cells = pieces(row, "|"@);
    if cells.len() < 5 {
        Err(Fault::Malformed)
    } else {
        match (
            uncoloured(cells[0], RED@, SUFFIX@),
            uncoloured(cells[1], GREEN@, SUFFIX@),
            status_written(trimmed(cells[3])),
        ) {
            (Some(method), Some(url), Some(status_code)) => match url_path(url) {
                Some(path) => Ok(
                    TestCaseView::at(
                        ascii_uppercase(method),
                        path,
                        verdict(status_code, trimmed(cells[4])),
                    ),
                ),
                None => Err(Fault::Url),
            },
            _ => Err(Fault::Malformed),
        }
    }
}

/// The outcome of each row.
pub open spec fn row_outcomes(rows: Seq<Seq<char>>) -> Seq<Result<TestCaseView, Fault>> {
    rows.map_values(|row: Seq<char>| processed_row(row))
}

/// The test cases of a test run: one for each line of the table, which starts on the
/// second line behind the start mark. An output without the mark is malformed.
pub open spec fn processed_stdout(content: Seq<char>) -> Result<Seq<TestCaseView>, Fault> {
    if occurs_in(content, TABLE_START@) {
        all_or_first_error(row_outcomes(behind_first(lines_of(after_first(content, TABLE_START@)))))
    } else {
        Err(Fault::Malformed)
    }
}

/// The text of a coloured cell.
pub fn strip_color<'a>(value: &'a str, prefix: &str, suffix: &str) -> (text: Option<&'a str>)
    ensures
        text is Some == uncoloured(value@, prefix@, suffix@) is Some,
        text matches Some(t) ==> uncoloured(value@, prefix@, suffix@) == Some(t@),
{
    let inner = strip_prefix(trim(value), prefix)?;
    let inner = strip_suffix(inner, suffix)?;
    Some(trim(inner))
}

/// The test case of one row of the table.
pub fn process_row(row: &str) -> (outcome: Result<TestCase, ProcessingError>)
    ensures
        outcome_view(outcome) == processed_row(row@),
        outcome matches Ok(c) ==> c.wf(),
{
    proof {
        reveal_strlit("|");
    }
    let cells = split(row, "|");
    if cells.len() < 5 {
        return Err(ProcessingError::Malformed);
    }
    proof {
        assert(views(cells@)[0] == cells@[0]@);
        assert(views(cells@)[1] == cells@[1]@);
        assert(views(cells@)[3] == cells@[3]@);
        assert(views(cells@)[4] == cells@[4]@);
    }
    let method = strip_color(cells[0], RED, SUFFIX);
    let url = strip_color(cells[1], GREEN, SUFFIX);
    let status_code = read_status(trim(cells[3]));
    match (method, url, status_code) {
        (Some(method), Some(url), Some(status_code)) => {
            let path = normalized_path(url)?;
            let method = to_ascii_uppercase(method);
            let reason = trim(cells[4]);
            if same_text(reason, "None") {
                Ok(TestCase::unexpected_status_code(method, path, status_code))
            } else if 500 <= status_code && status_code < 600 {
                Ok(TestCase::server_error(method, path, status_code))
            } else {
                Ok(TestCase::pass(method, path))
            }
        },
        _ => Err(ProcessingError::Malformed),
    }
}

/// The test cases of a test run.
#[verifier::loop_isolation(false)]
pub fn process_stdout(content: &str) -> (cases: Result<Vec<TestCase>, ProcessingError>)
    ensures
        outcomes_view(cases) == processed_stdout(content@),
        cases matches Ok(c) ==> all_wf(c@),
{
    let table = match split_once(content, TABLE_START) {
        Some((_, table)) => table,
        None => { return Err(ProcessingError::Malformed); },
    };
    let rows = lines(table);
    let ghost outcomes = row_outcomes(behind_first(views(rows@)));
    let mut cases: Vec<TestCase> = Vec::new();
    let mut at: usize = 1;
    proof {
        lemma_all_or_first_error_start(outcomes);
        assert(case_views(cases@) =~= Seq::empty());
    }
    if rows.len() == 0 {
        return Ok(cases);
    }
    while at < rows.len()
        invariant
            1 <= at <= rows.len(),
            all_or_first_error(outcomes.take(at - 1)) == Ok::<Seq<TestCaseView>, Fault>(
                case_views(cases@),
            ),
            all_wf(cases@),
        decreases rows.len() - at,
    {
        proof {
            lemma_all_or_first_error_step(outcomes, at - 1);
            assert(behind_first(views(rows@))[at - 1] == rows@[at as int]@);
        }
        let ghost before = case_views(cases@);
        match process_row(rows[at]) {
            Ok(case) => {
                cases.push(case);
                assert(case_views(cases@) =~= before.push(case@));
            },
            Err(error) => {
                proof {
                    lemma_first_error_stays(outcomes, at as int);
                }
                return Err(error);
            },
        }
        at = at + 1;
    }
    assert(outcomes.take(at - 1) =~= outcomes);
    Ok(cases)
}

} // verus!
