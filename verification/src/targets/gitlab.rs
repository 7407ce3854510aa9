//! GitLab: the exceptions in the log of the web container.

use crate::error::{Fault, ProcessingError};
use crate::targets::{failure_views, pending_view, Failure, FailureView, Scan};
use crate::text::{
    byte_tail, count_occurrences, lines, lines_of, occurrences, starts_with, tail_from, trim,
    trimmed, views,
};
use vstd::prelude::*;
use vstd::string::*;

verus! {

/// What every line of the web container starts with.
pub const CONTAINER: &'static str = "web_1  |";

/// The length of what stands before the message on a line of the log, in bytes.
pub const PREFIX_LENGTH: usize = 39;

pub const SERVER_ERROR: &'static str = "Completed 500 Internal Server Error";

pub const RECORD_NOT_FOUND: &'static str = "ActiveRecord::RecordNotFound";

pub const ARGUMENT_ERROR: &'static str = "ArgumentError";

/// The message of a line of the web container: what stands behind the line's prefix,
/// without the whitespace around it. `None` for a line that is too short for a prefix.
pub open spec fn message_of(line: Seq<char>) -> Option<Seq<char>> {
    match byte_tail(line, PREFIX_LENGTH as int) {
        Some(tail) => Some(trimmed(tail)),
        None => None,
    }
}

/// The failure that a message opens, if it opens one. All failures come from the one
/// endpoint that the engines can reach with invalid input.
pub open spec fn opened_by(message: Seq<char>) -> Option<FailureView> {
    let title = if RECORD_NOT_FOUND@.is_prefix_of(message) {
        Some(RECORD_NOT_FOUND@)
    } else if ARGUMENT_ERROR@.is_prefix_of(message) {
        Some(ARGUMENT_ERROR@)
    } else {
        None
    };
    match title {
        Some(title) => Some(
            FailureView {
                method: Some("POST"@),
                path: Some("/api/graphql"@),
                title,
                traceback: Seq::empty(),
            },
        ),
        None => None,
    }
}

/// The scan after one more line. Lines of other containers are passed over. While a
/// traceback is read, a message adds to it and an empty message ends it; else a message
/// may open a failure.
pub open spec fn step(scan: Scan, line: Seq<char>) -> Result<Scan, Fault> {
    if !CONTAINER@.is_prefix_of(line) {
        Ok(scan)
    } else {
        match message_of(line) {
            Some(message) => if scan.pending is Some {
                if message.len() == 0 {
                    Ok(scan.closed())
                } else {
                    Ok(scan.with_frame(message))
                }
            } else {
                match opened_by(message) {
                    Some(failure) => Ok(scan.opened(failure)),
                    None => Ok(scan),
                }
            },
            None => Err(Fault::Malformed),
        }
    }
}

/// The scan after the given lines, or the error of the first line that has one.
pub open spec fn scanned(rows: Seq<Seq<char>>) -> Result<Scan, Fault>
    decreases rows.len(),
{
    if rows.len() == 0 {
        Ok(Scan::start())
    } else {
        match scanned(rows.drop_last()) {
            Ok(scan) => step(scan, rows.last()),
            Err(error) => Err(error),
        }
    }
}

/// The failures that the log of the target holds, in their order. The log must hold as
/// many of them as it reports server errors.
pub open spec fn processed_stdout(content: Seq<char>) -> Result<Seq<FailureView>, Fault> {
    match scanned(lines_of(content)) {
        Ok(scan) => if scan.all().len() == occurrences(content, SERVER_ERROR@) {
            Ok(scan.all())
        } else {
            Err(Fault::Malformed)
        },
        Err(error) => Err(error),
    }
}

/// One more line: the scan of the lines before it decides together with the line.
pub proof fn lemma_scan_step(rows: Seq<Seq<char>>, done: int)
    requires
        0 <= done < rows.len(),
    ensures
        scanned(rows.take(done + 1)) == match scanned(rows.take(done)) {
            Ok(scan) => step(scan, rows[done]),
            Err(error) => Err(error),
        },
{
    assert(rows.take(done + 1).drop_last() =~= rows.take(done));
}

/// An error among the first lines is the error of the whole scan.
pub proof fn lemma_scan_error_stays(rows: Seq<Seq<char>>, done: int)
    requires
        0 <= done <= rows.len(),
        scanned(rows.take(done)) is Err,
    ensures
        scanned(rows) == scanned(rows.take(done)),
    decreases rows.len() - done,
{
    if done < rows.len() {
        lemma_scan_step(rows, done);
        lemma_scan_error_stays(rows, done + 1);
    } else {
        assert(rows.take(done) =~= rows);
    }
}

/// The message of a line of the web container.
pub fn message(line: &str) -> (text: Option<&str>)
    ensures
        text is Some == message_of(line@) is Some,
        text matches Some(t) ==> message_of(line@) == Some(t@),
{
    match tail_from(line, PREFIX_LENGTH) {
        Some(tail) => Some(trim(tail)),
        None => None,
    }
}

/// The failure that a message opens, if it opens one.
pub fn open_failure(message: &str) -> (failure: Option<Failure>)
    ensures
        pending_view(failure) == opened_by(message@),
{
    let title = if starts_with(message, RECORD_NOT_FOUND) {
        RECORD_NOT_FOUND
    } else if starts_with(message, ARGUMENT_ERROR) {
        ARGUMENT_ERROR
    } else {
        return None;
    };
    Some(
        Failure {
            method: Some("POST".to_owned()),
            path: Some("/api/graphql".to_owned()),
            title: title.to_owned(),
            traceback: String::new(),
        },
    )
}

/// The failures that the log of the target holds.
#[verifier::loop_isolation(false)]
pub fn process_stdout(content: &str) -> (failures: Result<Vec<Failure>, ProcessingError>)
    ensures
        failures is Ok == processed_stdout(content@) is Ok,
        failures matches Ok(found) ==> processed_stdout(content@) == Ok::<
            Seq<FailureView>,
            Fault,
        >(failure_views(found@)),
        failures matches Err(error) ==> processed_stdout(content@) == Err::<
            Seq<FailureView>,
            Fault,
        >(error.fault()),
{
    proof {
        reveal_strlit("Completed 500 Internal Server Error");
    }
    let total = count_occurrences(content, SERVER_ERROR);
    let rows = lines(content);
    let mut failures: Vec<Failure> = Vec::new();
    let mut pending: Option<Failure> = None;
    let mut at: usize = 0;
    let ghost mut scan = Scan::start();
    proof {
        assert(views(rows@).take(0).len() == 0);
        assert(failure_views(failures@) =~= Seq::empty());
    }
    while at < rows.len()
        invariant
            at <= rows.len(),
            scanned(views(rows@).take(at as int)) == Ok::<Scan, Fault>(scan),
            scan.failures == failure_views(failures@),
            scan.pending == pending_view(pending),
        decreases rows.len() - at,
    {
        proof {
            lemma_scan_step(views(rows@), at as int);
            assert(views(rows@)[at as int] == rows@[at as int]@);
        }
        let line = rows[at];
        if starts_with(line, CONTAINER) {
            let text = match message(line) {
                Some(text) => text,
                None => {
                    proof {
                        lemma_scan_error_stays(views(rows@), at + 1);
                    }
                    return Err(ProcessingError::Malformed);
                },
            };
            let ghost before = failure_views(failures@);
            match pending {
                Some(mut failure) => {
                    if text.is_empty() {
                        failures.push(failure);
                        pending = None;
                        proof {
                            assert(failure_views(failures@) =~= before.push(failure@));
                            scan = scan.closed();
                        }
                    } else {
                        failure.traceback.append(text);
                        failure.traceback.append("\n");
                        pending = Some(failure);
                        proof {
                            assert(failure.traceback@ =~= scan.pending->0.traceback + text@ + "\n"@);
                            scan = scan.with_frame(text@);
                        }
                    }
                },
                None => {
                    if let Some(failure) = open_failure(text) {
                        pending = Some(failure);
                        proof {
                            scan = scan.opened(failure@);
                        }
                    }
                },
            }
        }
        at = at + 1;
    }
    assert(views(rows@).take(at as int) =~= views(rows@));
    let ghost before = failure_views(failures@);
    if let Some(failure) = pending {
        failures.push(failure);
        assert(failure_views(failures@) =~= before.push(failure@));
    }
    if failures.len() == total {
        Ok(failures)
    } else {
        Err(ProcessingError::Malformed)
    }
}

} // verus!
