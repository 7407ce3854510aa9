pub mod api_fuzzer;
pub mod cats;
pub mod fuzz_lightyear;
pub mod got_swag;
pub mod restler;
pub mod restler_buckets;
pub mod schemathesis;
pub mod swagger_fuzzer;
pub mod tnt_fuzzer;

use crate::error::{Fault, ProcessingError};
use crate::fuzzers::restler_buckets::{entry_views, DedupFailureEntry, EntryView};
use crate::output::{all_wf, case_views, outcomes_view, TestCase, TestCaseView};
use crate::text::same_text;
use vstd::prelude::*;
use vstd::string::*;

verus! {

/// Why a text names no engine.
#[derive(Debug, Clone, PartialEq, Eq)]
pub enum FuzzerError {
    UnknownFuzzer(String),
}

impl FuzzerError {
    /// The text that was not recognized.
    pub open spec fn token(self) -> Seq<char> {
        match self {
            FuzzerError::UnknownFuzzer(token) => token@,
        }
    }

    /// The error in words: that the engine is unknown, and the text that was given.
    pub fn to_string(&self) -> (text: String)
        ensures
            text@ == "Unknown fuzzer: "@ + self.token(),
    {
        match self {
            FuzzerError::UnknownFuzzer(token) => "Unknown fuzzer: ".to_owned().concat(
                token.as_str(),
            ),
        }
    }
}

/// The engines whose output the library reads.
#[derive(Debug, Clone, Copy, PartialEq, Eq, Structural)]
pub enum Fuzzer {
    ApiFuzzer,
    TntFuzzer,
    Schemathesis(SchemathesisKind),
    Restler,
    Cats,
    SwaggerFuzzer,
    GotSwag,
    FuzzLightyear,
}

/// The modes in which Schemathesis runs.
#[derive(Debug, Clone, Copy, PartialEq, Eq, Structural)]
pub enum SchemathesisKind {
    Default,
    AllChecks,
    Negative,
    StatefulOld,
    StatefulNew,
}

impl SchemathesisKind {
    /// The name of the mode.
    pub open spec fn name(self) -> Seq<char> {
        match self {
            SchemathesisKind::Default => "Default"@,
            SchemathesisKind::AllChecks => "AllChecks"@,
            SchemathesisKind::Negative => "Negative"@,
            SchemathesisKind::StatefulOld => "StatefulOld"@,
            SchemathesisKind::StatefulNew => "StatefulNew"@,
        }
    }

    /// The name of the mode.
    pub fn as_str(&self) -> (name: &'static str)
        ensures
            name@ == self.name(),
    {
        match self {
            SchemathesisKind::Default => "Default",
            SchemathesisKind::AllChecks => "AllChecks",
            SchemathesisKind::Negative => "Negative",
            SchemathesisKind::StatefulOld => "StatefulOld",
            SchemathesisKind::StatefulNew => "StatefulNew",
        }
    }

    /// The name of the mode as a text of its own.
    pub fn to_string(&self) -> (name: String)
        ensures
            name@ == self.name(),
    {
        self.as_str().to_owned()
    }
}

/// The engine that a token names: `name`, or `name:mode` for an engine with modes.
pub open spec fn recognized(token: Seq<char>) -> Option<Fuzzer> {
    if token == "api_fuzzer"@ {
        Some(Fuzzer::ApiFuzzer)
    } else if token == "tnt_fuzzer"@ {
        Some(Fuzzer::TntFuzzer)
    } else if token == "schemathesis:Default"@ {
        Some(Fuzzer::Schemathesis(SchemathesisKind::Default))
    } else if token == "schemathesis:AllChecks"@ {
        Some(Fuzzer::Schemathesis(SchemathesisKind::AllChecks))
    } else if token == "schemathesis:Negative"@ {
        Some(Fuzzer::Schemathesis(SchemathesisKind::Negative))
    } else if token == "schemathesis:StatefulOld"@ {
        Some(Fuzzer::Schemathesis(SchemathesisKind::StatefulOld))
    } else if token == "schemathesis:StatefulNew"@ {
        Some(Fuzzer::Schemathesis(SchemathesisKind::StatefulNew))
    } else if token == "restler"@ {
        Some(Fuzzer::Restler)
    } else if token == "cats"@ {
        Some(Fuzzer::Cats)
    } else if token == "swagger_fuzzer"@ {
        Some(Fuzzer::SwaggerFuzzer)
    } else if token == "got_swag"@ {
        Some(Fuzzer::GotSwag)
    } else if token == "fuzz_lightyear"@ {
        Some(Fuzzer::FuzzLightyear)
    } else {
        None
    }
}

/// What reading a token gives: the engine it names, or the token back in an error.
pub open spec fn parsed(token: Seq<char>) -> Result<Fuzzer, Seq<char>> {
    match recognized(token) {
        Some(fuzzer) => Ok(fuzzer),
        None => Err(token),
    }
}

/// The result of reading a token, the error as the text it holds.
pub open spec fn parse_view(result: Result<Fuzzer, FuzzerError>) -> Result<Fuzzer, Seq<char>> {
    match result {
        Ok(fuzzer) => Ok(fuzzer),
        Err(error) => Err(error.token()),
    }
}

impl Fuzzer {
    /// The token that names the engine in directory names and in the metadata of a run.
    pub open spec fn token(self) -> Seq<char> {
        match self {
            Fuzzer::ApiFuzzer => "api_fuzzer"@,
            Fuzzer::TntFuzzer => "tnt_fuzzer"@,
            Fuzzer::Schemathesis(kind) => "schemathesis:"@ + kind.name(),
            Fuzzer::Restler => "restler"@,
            Fuzzer::Cats => "cats"@,
            Fuzzer::SwaggerFuzzer => "swagger_fuzzer"@,
            Fuzzer::GotSwag => "got_swag"@,
            Fuzzer::FuzzLightyear => "fuzz_lightyear"@,
        }
    }

    /// The engine that a token names. A token that names none is handed back in the error.
    pub fn parse(token: &str) -> (result: Result<Fuzzer, FuzzerError>)
        ensures
            parse_view(result) == parsed(token@),
    {
        if same_text(token, "api_fuzzer") {
            Ok(Fuzzer::ApiFuzzer)
        } else if same_text(token, "tnt_fuzzer") {
            Ok(Fuzzer::TntFuzzer)
        } else if same_text(token, "schemathesis:Default") {
            Ok(Fuzzer::Schemathesis(SchemathesisKind::Default))
        } else if same_text(token, "schemathesis:AllChecks") {
            Ok(Fuzzer::Schemathesis(SchemathesisKind::AllChecks))
        } else if same_text(token, "schemathesis:Negative") {
            Ok(Fuzzer::Schemathesis(SchemathesisKind::Negative))
        } else if same_text(token, "schemathesis:StatefulOld") {
            Ok(Fuzzer::Schemathesis(SchemathesisKind::StatefulOld))
        } else if same_text(token, "schemathesis:StatefulNew") {
            Ok(Fuzzer::Schemathesis(SchemathesisKind::StatefulNew))
        } else if same_text(token, "restler") {
            Ok(Fuzzer::Restler)
        } else if same_text(token, "cats") {
            Ok(Fuzzer::Cats)
        } else if same_text(token, "swagger_fuzzer") {
            Ok(Fuzzer::SwaggerFuzzer)
        } else if same_text(token, "got_swag") {
            Ok(Fuzzer::GotSwag)
        } else if same_text(token, "fuzz_lightyear") {
            Ok(Fuzzer::FuzzLightyear)
        } else {
            Err(FuzzerError::UnknownFuzzer(token.to_owned()))
        }
    }

    /// The token that names the engine.
    pub fn to_string(&self) -> (token: String)
        ensures
            token@ == self.token(),
    {
        match self {
            Fuzzer::ApiFuzzer => "api_fuzzer".to_owned(),
            Fuzzer::TntFuzzer => "tnt_fuzzer".to_owned(),
            Fuzzer::Schemathesis(kind) => "schemathesis:".to_owned().concat(kind.as_str()),
            Fuzzer::Restler => "restler".to_owned(),
            Fuzzer::Cats => "cats".to_owned(),
            Fuzzer::SwaggerFuzzer => "swagger_fuzzer".to_owned(),
            Fuzzer::GotSwag => "got_swag".to_owned(),
            Fuzzer::FuzzLightyear => "fuzz_lightyear".to_owned(),
        }
    }
}

impl std::str::FromStr for Fuzzer {
    type Err = FuzzerError;

    /// The engine that a token names, as `Fuzzer::parse` reads it.
    fn from_str(s: &str) -> (result: Result<Fuzzer, FuzzerError>)
        ensures
            parse_view(result) == parsed(s@),
    {
        Fuzzer::parse(s)
    }
}

/// What the literals of the tokens hold.
pub proof fn lemma_tokens()
    ensures
        "schemathesis:Default"@ == "schemathesis:"@ + "Default"@,
        "schemathesis:AllChecks"@ == "schemathesis:"@ + "AllChecks"@,
        "schemathesis:Negative"@ == "schemathesis:"@ + "Negative"@,
        "schemathesis:StatefulOld"@ == "schemathesis:"@ + "StatefulOld"@,
        "schemathesis:StatefulNew"@ == "schemathesis:"@ + "StatefulNew"@,
        "api_fuzzer"@.len() == 10 && "api_fuzzer"@[0] == 'a',
        "tnt_fuzzer"@.len() == 10 && "tnt_fuzzer"@[0] == 't',
        "schemathesis:Default"@.len() == 20 && "schemathesis:Default"@[0] == 's',
        "schemathesis:AllChecks"@.len() == 22 && "schemathesis:AllChecks"@[0] == 's',
        "schemathesis:Negative"@.len() == 21 && "schemathesis:Negative"@[0] == 's',
        "schemathesis:StatefulOld"@.len() == 24 && "schemathesis:StatefulOld"@[21] == 'O',
        "schemathesis:StatefulNew"@.len() == 24 && "schemathesis:StatefulNew"@[21] == 'N',
        "restler"@.len() == 7,
        "cats"@.len() == 4,
        "swagger_fuzzer"@.len() == 14 && "swagger_fuzzer"@[0] == 's',
        "got_swag"@.len() == 8,
        "fuzz_lightyear"@.len() == 14 && "fuzz_lightyear"@[0] == 'f',
{
    reveal_strlit("schemathesis:");
    reveal_strlit("Default");
    reveal_strlit("AllChecks");
    reveal_strlit("Negative");
    reveal_strlit("StatefulOld");
    reveal_strlit("StatefulNew");
    reveal_strlit("api_fuzzer");
    reveal_strlit("tnt_fuzzer");
    reveal_strlit("schemathesis:Default");
    reveal_strlit("schemathesis:AllChecks");
    reveal_strlit("schemathesis:Negative");
    reveal_strlit("schemathesis:StatefulOld");
    reveal_strlit("schemathesis:StatefulNew");
    reveal_strlit("restler");
    reveal_strlit("cats");
    reveal_strlit("swagger_fuzzer");
    reveal_strlit("got_swag");
    reveal_strlit("fuzz_lightyear");
    assert("schemathesis:Default"@ =~= "schemathesis:"@ + "Default"@);
    assert("schemathesis:AllChecks"@ =~= "schemathesis:"@ + "AllChecks"@);
    assert("schemathesis:Negative"@ =~= "schemathesis:"@ + "Negative"@);
    assert("schemathesis:StatefulOld"@ =~= "schemathesis:"@ + "StatefulOld"@);
    assert("schemathesis:StatefulNew"@ =~= "schemathesis:"@ + "StatefulNew"@);
}

/// A token that names an engine is the token of that engine: writing the engine that was
/// read gives the text that was read.
pub proof fn lemma_token_round_trip(token: Seq<char>)
    requires
        recognized(token) is Some,
    ensures
        recognized(token)->0.token() == token,
{
    lemma_tokens();
}

/// The token of an engine names that engine and no other: reading what was written gives
/// the engine back.
pub proof fn lemma_engine_round_trip(fuzzer: Fuzzer)
    ensures
        recognized(fuzzer.token()) == Some(fuzzer),
{
    lemma_tokens();
}

/// A token that names no engine is rejected, and the error holds it: no token stands for
/// a default.
pub proof fn lemma_unknown_token_rejected(token: Seq<char>)
    requires
        forall|fuzzer: Fuzzer| fuzzer.token() != token,
    ensures
        parsed(token) == Err::<Fuzzer, Seq<char>>(token),
{
    if recognized(token) is Some {
        lemma_token_round_trip(token);
    }
}

/// Which of a run's artifacts the parser of an engine reads.
#[derive(Debug, Clone, Copy, PartialEq, Eq, Structural)]
pub enum Artifacts {
    /// The captured standard output, `stdout.txt`.
    Stdout,
    /// The log of events, `out.jsonl`, and the standard output for the list of failures.
    Events,
    /// The main log and the network log of the test run, and the buckets of errors.
    Logs,
    /// The report files in the run's directory, one per test.
    Reports,
}

/// What was read of a run's artifacts.
pub enum Input {
    Stdout(String),
    Events { events: String, stdout: String },
    Logs { main_log: String, network_log: String, buckets: String },
    Reports(Vec<String>),
}

/// The failures of a run without repetitions, for the engines that report them.
pub enum Deduplicated {
    /// The engine reports none, or the run had none.
    Nothing,
    /// Each failure once, as a test case.
    Cases(Vec<TestCase>),
    /// The number of failures at each endpoint.
    Entries(Vec<DedupFailureEntry>),
}

/// What a run's artifacts come to: the test cases in the order of the engine's output, and
/// the failures without repetitions.
pub struct Processed {
    pub cases: Vec<TestCase>,
    pub deduplicated: Deduplicated,
}

/// The failures without repetitions as plain values.
pub ghost enum DeduplicatedView {
    Nothing,
    Cases(Seq<TestCaseView>),
    Entries(Seq<EntryView>),
}

/// What a run's artifacts come to, as plain values.
pub ghost struct ProcessedView {
    pub cases: Seq<TestCaseView>,
    pub deduplicated: DeduplicatedView,
}

impl View for Deduplicated {
    type V = DeduplicatedView;

    open spec fn view(&self) -> DeduplicatedView {
        match self {
            Deduplicated::Nothing => DeduplicatedView::Nothing,
            Deduplicated::Cases(cases) => DeduplicatedView::Cases(case_views(cases@)),
            Deduplicated::Entries(entries) => DeduplicatedView::Entries(entry_views(entries@)),
        }
    }
}

impl View for Processed {
    type V = ProcessedView;

    open spec fn view(&self) -> ProcessedView {
        ProcessedView { cases: case_views(self.cases@), deduplicated: self.deduplicated@ }
    }
}

/// What is processed or the error, as plain values.
pub open spec fn processed_view(result: Result<Processed, ProcessingError>) -> Result<
    ProcessedView,
    Fault,
> {
    match result {
        Ok(processed) => Ok(processed@),
        Err(error) => Err(error.fault()),
    }
}

/// Which artifacts the parser of an engine reads.
pub open spec fn artifacts_for(fuzzer: Fuzzer) -> Artifacts {
    match fuzzer {
        Fuzzer::Schemathesis(SchemathesisKind::StatefulNew) => Artifacts::Stdout,
        Fuzzer::Schemathesis(_) => Artifacts::Events,
        Fuzzer::Restler => Artifacts::Logs,
        Fuzzer::Cats => Artifacts::Reports,
        _ => Artifacts::Stdout,
    }
}

/// The test cases alone, where the engine reports no failures apart.
pub open spec fn cases_only(cases: Result<Seq<TestCaseView>, Fault>) -> Result<
    ProcessedView,
    Fault,
> {
    match cases {
        Ok(cases) => Ok(ProcessedView { cases, deduplicated: DeduplicatedView::Nothing }),
        Err(error) => Err(error),
    }
}

/// What the artifacts of a run of the given engine come to: each engine has its parser,
/// and an input of another kind than the engine's is refused as malformed. Where failures
/// are reported apart, they are read first, and an error there is the error of the run.
pub open spec fn processed(fuzzer: Fuzzer, input: Input) -> Result<ProcessedView, Fault> {
    match (fuzzer, input) {
        (Fuzzer::ApiFuzzer, Input::Stdout(content)) => cases_only(
            api_fuzzer::processed_stdout(content@),
        ),
        (Fuzzer::TntFuzzer, Input::Stdout(content)) => cases_only(
            tnt_fuzzer::processed_stdout(content@),
        ),
        (Fuzzer::SwaggerFuzzer, Input::Stdout(content)) => cases_only(
            swagger_fuzzer::processed_stdout(content@),
        ),
        (Fuzzer::GotSwag, Input::Stdout(content)) => cases_only(
            got_swag::processed_stdout(content@),
        ),
        (Fuzzer::FuzzLightyear, Input::Stdout(content)) => cases_only(
            fuzz_lightyear::processed_stdout(content@),
        ),
        (Fuzzer::Schemathesis(SchemathesisKind::StatefulNew), Input::Stdout(content)) => cases_only(
            schemathesis::processed_pytest_output(content@),
        ),
        (Fuzzer::Schemathesis(kind), Input::Events { events, stdout }) => if kind
            == SchemathesisKind::StatefulNew {
            Err(Fault::Malformed)
        } else {
            match schemathesis::deduplicated(stdout@) {
                Ok(listed) => match schemathesis::processed_debug_output(events@) {
                    Ok(cases) => Ok(
                        ProcessedView {
                            cases,
                            deduplicated: match listed {
                                Some(failures) => DeduplicatedView::Cases(failures),
                                None => DeduplicatedView::Nothing,
                            },
                        },
                    ),
                    Err(error) => Err(error),
                },
                Err(error) => Err(error),
            }
        },
        (Fuzzer::Restler, Input::Logs { main_log, network_log, buckets }) => match restler_buckets::deduplicated(
            buckets@,
        ) {
            Ok(summary) => match restler::processed_network_log(main_log@, network_log@) {
                Ok(cases) => Ok(
                    ProcessedView {
                        cases,
                        deduplicated: match summary {
                            Some(entries) => DeduplicatedView::Entries(entries),
                            None => DeduplicatedView::Nothing,
                        },
                    },
                ),
                Err(error) => Err(error),
            },
            Err(error) => Err(error),
        },
        (Fuzzer::Cats, Input::Reports(contents)) => cases_only(cats::processed_files(contents@)),
        _ => Err(Fault::Malformed),
    }
}

/// Which artifacts the parser of an engine reads.
pub fn artifacts_of(fuzzer: Fuzzer) -> (artifacts: Artifacts)
    ensures
        artifacts == artifacts_for(fuzzer),
{
    match fuzzer {
        Fuzzer::Schemathesis(SchemathesisKind::StatefulNew) => Artifacts::Stdout,
        Fuzzer::Schemathesis(_) => Artifacts::Events,
        Fuzzer::Restler => Artifacts::Logs,
        Fuzzer::Cats => Artifacts::Reports,
        _ => Artifacts::Stdout,
    }
}

/// The test cases alone.
fn only(cases: Result<Vec<TestCase>, ProcessingError>) -> (result: Result<
    Processed,
    ProcessingError,
>)
    requires
        cases matches Ok(c) ==> all_wf(c@),
    ensures
        processed_view(result) == cases_only(outcomes_view(cases)),
        result matches Ok(p) ==> all_wf(p.cases@),
{
    match cases {
        Ok(cases) => Ok(Processed { cases, deduplicated: Deduplicated::Nothing }),
        Err(error) => Err(error),
    }
}

/// Turns what was read of the artifacts of a run into test cases, with the parser of the
/// run's engine.
pub fn process(fuzzer: Fuzzer, input: &Input) -> (result: Result<Processed, ProcessingError>)
    ensures
        processed_view(result) == processed(fuzzer, *input),
        result matches Ok(p) ==> all_wf(p.cases@),
{
    match (fuzzer, input) {
        (Fuzzer::ApiFuzzer, Input::Stdout(content)) => only(
            api_fuzzer::process_stdout(content.as_str()),
        ),
        (Fuzzer::TntFuzzer, Input::Stdout(content)) => only(
            tnt_fuzzer::process_stdout(content.as_str()),
        ),
        (Fuzzer::SwaggerFuzzer, Input::Stdout(content)) => only(
            swagger_fuzzer::process_stdout(content.as_str()),
        ),
        (Fuzzer::GotSwag, Input::Stdout(content)) => only(
            got_swag::process_stdout(content.as_str()),
        ),
        (Fuzzer::FuzzLightyear, Input::Stdout(content)) => only(
            fuzz_lightyear::process_stdout(content.as_str()),
        ),
        (Fuzzer::Schemathesis(SchemathesisKind::StatefulNew), Input::Stdout(content)) => only(
            schemathesis::process_pytest_output(content.as_str()),
        ),
        (Fuzzer::Schemathesis(kind), Input::Events { events, stdout }) => {
            if let SchemathesisKind::StatefulNew = kind {
                return Err(ProcessingError::Malformed);
            }
            let listed = schemathesis::get_deduplicated_results(stdout.as_str())?;
            let cases = schemathesis::process_debug_output(events.as_str())?;
            let deduplicated = match listed {
                Some(failures) => Deduplicated::Cases(failures),
                None => Deduplicated::Nothing,
            };
            Ok(Processed { cases, deduplicated })
        },
        (Fuzzer::Restler, Input::Logs { main_log, network_log, buckets }) => {
            let summary = restler_buckets::get_deduplicated_results(buckets.as_str())?;
            let cases = restler::process_network_log(main_log.as_str(), network_log.as_str())?;
            let deduplicated = match summary {
                Some(entries) => Deduplicated::Entries(entries),
                None => Deduplicated::Nothing,
            };
            Ok(Processed { cases, deduplicated })
        },
        (Fuzzer::Cats, Input::Reports(contents)) => only(cats::process_files(contents)),
        _ => Err(ProcessingError::Malformed),
    }
}

} // verus!
