//! One run from its descriptor to its test cases, and the account of a batch of runs.

use crate::error::{Fault, ProcessingError};
use crate::fuzzers::{artifacts_for, artifacts_of, processed_view, Artifacts, Input, Processed, ProcessedView};
use crate::metadata::{metadata_of, read_metadata};
use crate::output::all_wf;
use vstd::prelude::*;

verus! {

/// The descriptor of a run, in the run's directory.
pub const METADATA_FILE: &'static str = "metadata.json";

/// The directory of the engine's artifacts, in the run's directory.
pub const FUZZER_DIRECTORY: &'static str = "fuzzer";

/// The test cases of a run, in the run's output directory.
pub const CASES_FILE: &'static str = "fuzzer.json";

/// The failures of a run without repetitions, in the run's output directory.
pub const DEDUPLICATED_FILE: &'static str = "deduplicated_cases.json";

/// Which artifacts are to be read for the run that a descriptor describes.
pub open spec fn needed(metadata: Seq<char>) -> Result<Artifacts, Fault> {
    match metadata_of(metadata) {
        Some(described) => Ok(artifacts_for(described.fuzzer)),
        None => Err(Fault::Json),
    }
}

/// What a run comes to: its descriptor names the engine, and the engine's parser turns
/// what was read of the artifacts into test cases.
pub open spec fn processed_entry(metadata: Seq<char>, input: Input) -> Result<
    ProcessedView,
    Fault,
> {
    match metadata_of(metadata) {
        Some(described) => crate::fuzzers::processed(described.fuzzer, input),
        None => Err(Fault::Json),
    }
}

/// How many of the runs of a batch were processed.
pub open spec fn succeeded(outcomes: Seq<bool>) -> nat
    decreases outcomes.len(),
{
    if outcomes.len() == 0 {
        0
    } else if outcomes.last() {
        succeeded(outcomes.drop_last()) + 1
    } else {
        succeeded(outcomes.drop_last())
    }
}

/// Which artifacts are to be read for the run that a descriptor describes.
pub fn artifacts_needed(metadata: &str) -> (artifacts: Result<Artifacts, ProcessingError>)
    ensures
        crate::error::fault_view(artifacts) == needed(metadata@),
{
    let described = read_metadata(metadata)?;
    Ok(artifacts_of(described.fuzzer))
}

/// Turns one run into test cases, from the text of its descriptor and what was read of
/// its artifacts.
pub fn process_entry(metadata: &str, input: &Input) -> (result: Result<Processed, ProcessingError>)
    ensures
        processed_view(result) == processed_entry(metadata@, *input),
        result matches Ok(p) ==> all_wf(p.cases@),
{
    let described = read_metadata(metadata)?;
    crate::fuzzers::process(described.fuzzer, input)
}

/// The account of a batch: how many of its runs were processed, given for each run
/// whether it was. A run that failed does not count, and takes nothing from the others.
pub fn process(outcomes: &Vec<bool>) -> (count: usize)
    ensures
        count == succeeded(outcomes@),
{
    let mut count: usize = 0;
    let mut at: usize = 0;
    assert(outcomes@.take(0) =~= Seq::empty());
    while at < outcomes.len()
        invariant
            at <= outcomes.len(),
            count == succeeded(outcomes@.take(at as int)),
            count <= at,
        decreases outcomes.len() - at,
    {
        assert(outcomes@.take(at + 1).drop_last() =~= outcomes@.take(at as int));
        if outcomes[at] {
            count = count + 1;
        }
        at = at + 1;
    }
    assert(outcomes@.take(at as int) =~= outcomes@);
    count
}

/// Processing the same run again gives the same test cases and the same failures: what a
/// run comes to depends on its descriptor and its artifacts alone.
pub proof fn lemma_same_run_same_result(
    metadata: Seq<char>,
    input: Input,
    first: Result<Processed, ProcessingError>,
    second: Result<Processed, ProcessingError>,
)
    requires
        processed_view(first) == processed_entry(metadata, input),
        processed_view(second) == processed_entry(metadata, input),
    ensures
        processed_view(first) == processed_view(second),
{
}

} // verus!
