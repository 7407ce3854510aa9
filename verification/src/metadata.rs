//! The descriptor of a run: which engine ran against which target.

use crate::error::{Fault, ProcessingError};
use crate::fuzzers::Fuzzer;
use crate::json::{json_document, read, Json, JsonView};
use crate::targets::Target;
use vstd::prelude::*;

verus! {

/// What the descriptor of a run says of it. The descriptor also holds the run's duration,
/// which must be a number and is not kept.
#[derive(Debug, Clone, PartialEq, Eq)]
pub struct RunMetadata {
    pub fuzzer: Fuzzer,
    pub target: Target,
    pub run_id: Option<String>,
}

/// The descriptor of a run as a plain value.
pub ghost struct RunMetadataView {
    pub fuzzer: Fuzzer,
    pub target: Target,
    pub run_id: Option<Seq<char>>,
}

impl View for RunMetadata {
    type V = RunMetadataView;

    open spec fn view(&self) -> RunMetadataView {
        RunMetadataView {
            fuzzer: self.fuzzer,
            target: self.target,
            run_id: crate::output::text_view(self.run_id),
        }
    }
}

/// The identifier of a run: a string, or none where the member is missing or `null`.
/// Anything else is `None`.
pub open spec fn run_id_of(document: JsonView) -> Option<Option<Seq<char>>> {
    match document.member("run_id"@) {
        None => Some(None),
        Some(JsonView::Null) => Some(None),
        Some(JsonView::Text(id)) => Some(Some(id)),
        Some(_) => None,
    }
}

/// What a descriptor says: `fuzzer` and `target` hold the tokens of an engine and of a
/// target, `run_id` is a string or `null`, `duration` is a number.
pub open spec fn described(document: JsonView) -> Option<RunMetadataView> {
    match (
        document.member_text("fuzzer"@),
        document.member_text("target"@),
        run_id_of(document),
        document.member("duration"@),
    ) {
        (Some(fuzzer), Some(target), Some(run_id), Some(JsonView::Number(_))) => match (
            crate::fuzzers::recognized(fuzzer),
            crate::targets::parsed(target),
        ) {
            (Some(fuzzer), Ok(target)) => Some(RunMetadataView { fuzzer, target, run_id }),
            _ => None,
        },
        _ => None,
    }
}

/// What the text of a descriptor says; a text that is no JSON document of that shape is
/// refused.
pub open spec fn metadata_of(content: Seq<char>) -> Option<RunMetadataView> {
    match json_document(content) {
        Some(document) => described(document),
        None => None,
    }
}

/// The identifier of a run.
pub fn run_id(document: &Json) -> (id: Option<Option<String>>)
    ensures
        id is Some == run_id_of(document@) is Some,
        id matches Some(found) ==> run_id_of(document@) == Some(crate::output::text_view(found)),
{
    match document.get("run_id") {
        None => Some(None),
        Some(Json::Null) => Some(None),
        Some(Json::Text(id)) => Some(Some(id.clone())),
        Some(_) => None,
    }
}

/// What a descriptor says, or the words for what is wrong with it.
pub fn describe(document: &Json) -> (metadata: Result<RunMetadata, String>)
    ensures
        metadata is Ok == described(document@) is Some,
        metadata matches Ok(m) ==> described(document@) == Some(m@),
{
    let fuzzer = match document.get_text("fuzzer") {
        Some(fuzzer) => fuzzer,
        None => { return Err("the member `fuzzer` is missing or no string".to_owned()); },
    };
    let target = match document.get_text("target") {
        Some(target) => target,
        None => { return Err("the member `target` is missing or no string".to_owned()); },
    };
    let run_id = match run_id(document) {
        Some(run_id) => run_id,
        None => { return Err("the member `run_id` is neither a string nor null".to_owned()); },
    };
    match document.get("duration") {
        Some(Json::Number(_)) => {},
        _ => { return Err("the member `duration` is missing or no number".to_owned()); },
    }
    let fuzzer = match Fuzzer::parse(fuzzer) {
        Ok(fuzzer) => fuzzer,
        Err(error) => { return Err(error.to_string()); },
    };
    let target = match Target::parse(target) {
        Ok(target) => target,
        Err(error) => { return Err(error.to_string()); },
    };
    Ok(RunMetadata { fuzzer, target, run_id })
}

/// Reads the descriptor of a run from its text. A text that is no JSON document, or no
/// descriptor, is refused with the words for what is wrong with it.
pub fn read_metadata(content: &str) -> (metadata: Result<RunMetadata, ProcessingError>)
    ensures
        metadata is Ok == metadata_of(content@) is Some,
        metadata matches Ok(m) ==> metadata_of(content@) == Some(m@),
        metadata matches Err(error) ==> error.fault() == Fault::Json,
{
    let document = read(content)?;
    match describe(&document) {
        Ok(metadata) => Ok(metadata),
        Err(cause) => Err(ProcessingError::Json(cause)),
    }
}

} // verus!
