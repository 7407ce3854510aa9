//! disease.sh: the errors in the log of the web container.

use crate::error::{Fault, ProcessingError};
use crate::pattern::{Expression, 
    captures, compiled, group_text, is_match, regex_captures, regex_compiles, regex_is_match,
    text_of,
};
use crate::targets::{failure_views, pending_view, Failure, FailureView, Scan};
use crate::text::{
    byte_tail, lines, lines_of, starts_with, tail_from, trim, trim_end_matches, trimmed, views,
    without_trailing,
};
use std::collections::VecDeque;
use vstd::prelude::*;
use vstd::string::*;

verus! {

/// A line that reports an error: the end of its time stamp, then the name of the error.
pub const FAILURE: &'static str = r"Z \w+Error";

/// The URL of a request, in group 1.
pub const URL: &'static str = r"URL: (.+)";

/// What every line of the web container starts with.
pub const CONTAINER: &'static str = "web_1  ";

/// The length of what stands before the message on a line of the log, in bytes.
pub const PREFIX_LENGTH: usize = 41;

/// How many lines back a request is looked for.
pub const WINDOW: usize = 20;

pub const HEXISTS: &'static str =
    "ReplyError: ERR wrong number of arguments for 'hexists' command";

pub const INVALID_TIME: &'static str = "RangeError: Invalid time value";

pub const DECODE_PARAM: &'static str = "URIError: Failed to decode param";

/// Whether the regex engine accepts the analyzer's expressions.
pub open spec fn expressions_compile() -> bool {
    regex_compiles(FAILURE@) && regex_compiles(URL@)
}

/// The message of a line: what stands behind the line's prefix, without the whitespace
/// around it. `None` for a line that is too short for a prefix.
pub open spec fn message_of(line: Seq<char>) -> Option<Seq<char>> {
    match byte_tail(line, PREFIX_LENGTH as int) {
        Some(tail) => Some(trimmed(tail)),
        None => None,
    }
}

/// A frame of a traceback: the message of the line without the braces that it ends with.
pub open spec fn frame_of(line: Seq<char>) -> Option<Seq<char>> {
    match message_of(line) {
        Some(message) => Some(trimmed(without_trailing(message, "{"@))),
        None => None,
    }
}

/// The lines that a request is looked for in, the latest first, with one more: no more
/// than `WINDOW` lines are kept, and the oldest leave first.
pub open spec fn remembered(recent: Seq<Seq<char>>, line: Seq<char>) -> Seq<Seq<char>> {
    let grown = seq![line] + recent;
    if grown.len() > WINDOW {
        grown.subrange(0, WINDOW as int)
    } else {
        grown
    }
}

/// The path of the request that a failure belongs to: what the latest of the lines that
/// name a URL says. The lines stand with the latest first.
pub open spec fn request_path(recent: Seq<Seq<char>>) -> Option<Seq<char>>
    decreases recent.len(),
{
    if recent.len() == 0 {
        None
    } else {
        match regex_captures(URL@, recent.first()) {
            Some(groups) => group_text(groups, 1),
            None => request_path(recent.drop_first()),
        }
    }
}

/// What a message that reports an error stands for: a failure with this title, nothing,
/// or an error that the analyzer does not know.
pub open spec fn title_of(message: Seq<char>) -> Result<Option<Seq<char>>, Fault> {
    if HEXISTS@.is_prefix_of(message) {
        Ok(Some(HEXISTS@))
    } else if INVALID_TIME@.is_prefix_of(message) {
        Ok(Some(INVALID_TIME@))
    } else if DECODE_PARAM@.is_prefix_of(message) {
        Ok(None)
    } else {
        Err(Fault::Unclassified)
    }
}

/// What has been read of the log: the failures, and the lines to look for a request in.
pub ghost struct Reading {
    pub scan: Scan,
    pub recent: Seq<Seq<char>>,
}

/// The reading after one more line. While a traceback is read, lines of other containers
/// are passed over, a frame that starts with `at` adds to the traceback, and any other
/// line ends it. Else the line is remembered, and where it reports an error, its message
/// may open a failure, whose path is that of the latest request.
pub open spec fn step(reading: Reading, line: Seq<char>) -> Result<Reading, Fault> {
    if reading.scan.pending is Some {
        if !CONTAINER@.is_prefix_of(line) {
            Ok(reading)
        } else {
            match frame_of(line) {
                Some(frame) => if "at "@.is_prefix_of(frame) {
                    Ok(Reading { scan: reading.scan.with_frame(frame), recent: reading.recent })
                } else {
                    Ok(Reading { scan: reading.scan.closed(), recent: reading.recent })
                },
                None => Err(Fault::Malformed),
            }
        }
    } else {
        let recent = remembered(reading.recent, line);
        if !regex_is_match(FAILURE@, line) {
            Ok(Reading { scan: reading.scan, recent })
        } else {
            match message_of(line) {
                Some(message) => match title_of(message) {
                    Ok(Some(title)) => Ok(
                        Reading {
                            scan: reading.scan.opened(
                                FailureView {
                                    method: None,
                                    path: request_path(recent),
                                    title,
                                    traceback: Seq::empty(),
                                },
                            ),
                            recent,
                        },
                    ),
                    Ok(None) => Ok(Reading { scan: reading.scan, recent }),
                    Err(error) => Err(error),
                },
                None => Err(Fault::Malformed),
            }
        }
    }
}

/// The reading after the given lines, or the error of the first line that has one.
pub open spec fn read_lines(rows: Seq<Seq<char>>) -> Result<Reading, Fault>
    decreases rows.len(),
{
    if rows.len() == 0 {
        Ok(Reading { scan: Scan::start(), recent: Seq::empty() })
    } else {
        match read_lines(rows.drop_last()) {
            Ok(reading) => step(reading, rows.last()),
            Err(error) => Err(error),
        }
    }
}

/// The failures that the log of the target holds, in their order.
pub open spec fn processed_stdout(content: Seq<char>) -> Result<Seq<FailureView>, Fault> {
    if !expressions_compile() {
        Err(Fault::Pattern)
    } else {
        match read_lines(lines_of(content)) {
            Ok(reading) => Ok(reading.scan.all()),
            Err(error) => Err(error),
        }
    }
}

/// One more line: the reading of the lines before it decides together with the line.
pub proof fn lemma_read_step(rows: Seq<Seq<char>>, done: int)
    requires
        0 <= done < rows.len(),
    ensures
        read_lines(rows.take(done + 1)) == match read_lines(rows.take(done)) {
            Ok(reading) => step(reading, rows[done]),
            Err(error) => Err(error),
        },
{
    assert(rows.take(done + 1).drop_last() =~= rows.take(done));
}

/// An error among the first lines is the error of the whole reading.
pub proof fn lemma_read_error_stays(rows: Seq<Seq<char>>, done: int)
    requires
        0 <= done <= rows.len(),
        read_lines(rows.take(done)) is Err,
    ensures
        read_lines(rows) == read_lines(rows.take(done)),
    decreases rows.len() - done,
{
    if done < rows.len() {
        lemma_read_step(rows, done);
        lemma_read_error_stays(rows, done + 1);
    } else {
        assert(rows.take(done) =~= rows);
    }
}

/// The message of a line.
pub fn message(line: &str) -> (text: Option<&str>)
    ensures
        text is Some == message_of(line@) is Some,
        text matches Some(t) ==> message_of(line@) == Some(t@),
{
    match tail_from(line, PREFIX_LENGTH) {
        Some(tail) => Some(trim(tail)),
        None => None,
    }
}

/// A frame of a traceback.
pub fn frame(line: &str) -> (text: Option<&str>)
    ensures
        text is Some == frame_of(line@) is Some,
        text matches Some(t) ==> frame_of(line@) == Some(t@),
{
    proof {
        reveal_strlit("{");
    }
    match message(line) {
        Some(text) => Some(trim(trim_end_matches(text, "{"))),
        None => None,
    }
}

/// What a message that reports an error stands for.
pub fn title(message: &str) -> (found: Result<Option<&'static str>, ProcessingError>)
    ensures
        found is Ok == title_of(message@) is Ok,
        found matches Ok(Some(t)) ==> title_of(message@) == Ok::<
            Option<Seq<char>>,
            Fault,
        >(Some(t@)),
        found matches Ok(None) ==> title_of(message@) == Ok::<Option<Seq<char>>, Fault>(
            None,
        ),
        found matches Err(error) ==> title_of(message@) == Err::<
            Option<Seq<char>>,
            Fault,
        >(error.fault()),
{
    if starts_with(message, HEXISTS) {
        Ok(Some(HEXISTS))
    } else if starts_with(message, INVALID_TIME) {
        Ok(Some(INVALID_TIME))
    } else if starts_with(message, DECODE_PARAM) {
        Ok(None)
    } else {
        Err(ProcessingError::Unclassified)
    }
}

/// The path of the request that a failure belongs to, among the lines that are remembered.
pub fn get_request_path(pattern: &Expression, recent: &VecDeque<&str>) -> (path: Option<String>)
    requires
        pattern@ == URL@,
    ensures
        crate::output::text_view(path) == request_path(views(recent@)),
{
    let ghost all = views(recent@);
    let mut at: usize = 0;
    assert(all.skip(0) =~= all);
    while at < recent.len()
        invariant
            at <= recent.len(),
            all == views(recent@),
            pattern@ == URL@,
            request_path(all) == request_path(all.skip(at as int)),
        decreases recent.len() - at,
    {
        proof {
            assert(all.skip(at as int).first() == recent@[at as int]@);
            assert(all.skip(at as int).drop_first() =~= all.skip(at + 1));
        }
        if let Some(groups) = captures(pattern, recent[at]) {
            return match text_of(&groups, 1) {
                Some(path) => Some(path.to_owned()),
                None => None,
            };
        }
        at = at + 1;
    }
    assert(all.skip(at as int).len() == 0);
    None
}

/// The lines that a request is looked for in, with one more.
pub fn remember<'a>(recent: &mut VecDeque<&'a str>, line: &'a str)
    ensures
        views(final(recent)@) == remembered(views(old(recent)@), line@),
{
    let ghost before = views(recent@);
    recent.push_front(line);
    assert(views(recent@) =~= seq![line@] + before);
    let ghost grown = views(recent@);
    recent.truncate(WINDOW);
    assert(views(recent@) =~= remembered(before, line@));
}

/// The failures that the log of the target holds.
#[verifier::loop_isolation(false)]
pub fn process_stdout(content: &str) -> (failures: Result<Vec<Failure>, ProcessingError>)
    ensures
        failures is Ok == processed_stdout(content@) is Ok,
        failures matches Ok(found) ==> processed_stdout(content@) == Ok::<
            Seq<FailureView>,
            Fault,
        >(failure_views(found@)),
        failures matches Err(error) ==> processed_stdout(content@) == Err::<
            Seq<FailureView>,
            Fault,
        >(error.fault()),
{
    let reports_error = compiled(FAILURE)?;
    let names_url = compiled(URL)?;
    let rows = lines(content);
    let mut failures: Vec<Failure> = Vec::new();
    let mut pending: Option<Failure> = None;
    let mut recent: VecDeque<&str> = VecDeque::new();
    let mut at: usize = 0;
    let ghost mut reading = Reading { scan: Scan::start(), recent: Seq::empty() };
    proof {
        assert(views(rows@).take(0).len() == 0);
        assert(failure_views(failures@) =~= Seq::empty());
        assert(views(recent@) =~= Seq::empty());
    }
    while at < rows.len()
        invariant
            at <= rows.len(),
            read_lines(views(rows@).take(at as int)) == Ok::<Reading, Fault>(reading),
            reading.scan.failures == failure_views(failures@),
            reading.scan.pending == pending_view(pending),
            reading.recent == views(recent@),
        decreases rows.len() - at,
    {
        proof {
            lemma_read_step(views(rows@), at as int);
            assert(views(rows@)[at as int] == rows@[at as int]@);
        }
        let line = rows[at];
        let ghost before = failure_views(failures@);
        match pending {
            Some(mut failure) => {
                if starts_with(line, CONTAINER) {
                    let text = match frame(line) {
                        Some(text) => text,
                        None => {
                            proof {
                                lemma_read_error_stays(views(rows@), at + 1);
                            }
                            return Err(ProcessingError::Malformed);
                        },
                    };
                    if starts_with(text, "at ") {
                        failure.traceback.append(text);
                        failure.traceback.append("\n");
                        pending = Some(failure);
                        proof {
                            assert(failure.traceback@ =~= reading.scan.pending->0.traceback + text@
                                + "\n"@);
                            reading =
                            Reading {
                                scan: reading.scan.with_frame(text@),
                                recent: reading.recent,
                            };
                        }
                    } else {
                        failures.push(failure);
                        pending = None;
                        proof {
                            assert(failure_views(failures@) =~= before.push(failure@));
                            reading =
                            Reading { scan: reading.scan.closed(), recent: reading.recent };
                        }
                    }
                } else {
                    pending = Some(failure);
                }
            },
            None => {
                remember(&mut recent, line);
                proof {
                    reading = Reading { scan: reading.scan, recent: views(recent@) };
                }
                if is_match(&reports_error, line) {
                    let found = match message(line) {
                        Some(text) => title(text),
                        None => Err(ProcessingError::Malformed),
                    };
                    match found {
                        Ok(Some(title)) => {
                            let failure = Failure {
                                method: None,
                                path: get_request_path(&names_url, &recent),
                                title: title.to_owned(),
                                traceback: String::new(),
                            };
                            pending = Some(failure);
                            proof {
                                reading =
                                Reading {
                                    scan: reading.scan.opened(failure@),
                                    recent: reading.recent,
                                };
                            }
                        },
                        Ok(None) => {},
                        Err(error) => {
                            proof {
                                lemma_read_error_stays(views(rows@), at + 1);
                            }
                            return Err(error);
                        },
                    }
                }
            },
        }
        at = at + 1;
    }
    assert(views(rows@).take(at as int) =~= views(rows@));
    let ghost before = failure_views(failures@);
    if let Some(failure) = pending {
        failures.push(failure);
        assert(failure_views(failures@) =~= before.push(failure@));
    }
    Ok(failures)
}

} // verus!
