//! Why a run's output could not be turned into test cases.

use vstd::prelude::*;
use vstd::string::*;

verus! {

/// What went wrong, without the words of the cause. The contracts of the library say which
/// fault comes on which input.
#[derive(Debug, Clone, Copy, PartialEq, Eq, Structural)]
pub enum Fault {
    /// The pattern that selects the runs is not a valid glob.
    Glob,
    /// The artifact directory's path is not text.
    InvalidDirectoryName,
    /// A document is not valid JSON, or not the document that was expected.
    Json,
    /// One of the parser's own regular expressions did not compile.
    Pattern,
    /// A request's URL is no URL.
    Url,
    /// The input does not have the shape that the parser takes for granted.
    Malformed,
    /// None of the parser's rules applies to a test case.
    Unclassified,
}

/// What stops the processing of one run, or of the whole batch. Where another crate found
/// the fault, the error carries that crate's words for it; nothing is stated of those words.
#[derive(Debug, Clone, PartialEq, Eq)]
pub enum ProcessingError {
    Glob(String),
    InvalidDirectoryName,
    Json(String),
    Pattern(String),
    Url(String),
    Malformed,
    Unclassified,
}

/// A result with the fault of its error in the error's place.
pub open spec fn fault_view<T>(result: Result<T, ProcessingError>) -> Result<T, Fault> {
    match result {
        Ok(value) => Ok(value),
        Err(error) => Err(error.fault()),
    }
}

impl Fault {
    /// A sentence for the error stream.
    pub open spec fn words(self) -> Seq<char> {
        match self {
            Fault::Glob => "the selection pattern is not a valid glob"@,
            Fault::InvalidDirectoryName => "the directory name is not valid text"@,
            Fault::Json => "a document is not valid JSON"@,
            Fault::Pattern => "a regular expression did not compile"@,
            Fault::Url => "a request URL is not valid"@,
            Fault::Malformed => "the output does not have the expected shape"@,
            Fault::Unclassified => "a test case matches none of the known outcomes"@,
        }
    }

    /// A sentence for the error stream.
    pub fn sentence(&self) -> (text: &'static str)
        ensures
            text@ == self.words(),
    {
        match self {
            Fault::Glob => "the selection pattern is not a valid glob",
            Fault::InvalidDirectoryName => "the directory name is not valid text",
            Fault::Json => "a document is not valid JSON",
            Fault::Pattern => "a regular expression did not compile",
            Fault::Url => "a request URL is not valid",
            Fault::Malformed => "the output does not have the expected shape",
            Fault::Unclassified => "a test case matches none of the known outcomes",
        }
    }
}

impl ProcessingError {
    /// What went wrong.
    pub open spec fn fault(self) -> Fault {
        match self {
            ProcessingError::Glob(_) => Fault::Glob,
            ProcessingError::InvalidDirectoryName => Fault::InvalidDirectoryName,
            ProcessingError::Json(_) => Fault::Json,
            ProcessingError::Pattern(_) => Fault::Pattern,
            ProcessingError::Url(_) => Fault::Url,
            ProcessingError::Malformed => Fault::Malformed,
            ProcessingError::Unclassified => Fault::Unclassified,
        }
    }

    /// The words of the cause, where the error carries them.
    pub open spec fn cause(self) -> Option<Seq<char>> {
        match self {
            ProcessingError::Glob(cause) => Some(cause@),
            ProcessingError::Json(cause) => Some(cause@),
            ProcessingError::Pattern(cause) => Some(cause@),
            ProcessingError::Url(cause) => Some(cause@),
            _ => None,
        }
    }

    /// What went wrong.
    pub fn kind(&self) -> (fault: Fault)
        ensures
            fault == self.fault(),
    {
        match self {
            ProcessingError::Glob(_) => Fault::Glob,
            ProcessingError::InvalidDirectoryName => Fault::InvalidDirectoryName,
            ProcessingError::Json(_) => Fault::Json,
            ProcessingError::Pattern(_) => Fault::Pattern,
            ProcessingError::Url(_) => Fault::Url,
            ProcessingError::Malformed => Fault::Malformed,
            ProcessingError::Unclassified => Fault::Unclassified,
        }
    }

    /// The words of the cause, where the error carries them.
    pub fn cause_text(&self) -> (cause: Option<&str>)
        ensures
            cause is Some == self.cause() is Some,
            cause matches Some(text) ==> self.cause() == Some(text@),
    {
        match self {
            ProcessingError::Glob(cause) => Some(cause.as_str()),
            ProcessingError::Json(cause) => Some(cause.as_str()),
            ProcessingError::Pattern(cause) => Some(cause.as_str()),
            ProcessingError::Url(cause) => Some(cause.as_str()),
            _ => None,
        }
    }

    /// The error in words: the sentence of its fault, and behind a colon the cause, where
    /// the error carries one.
    pub fn message(&self) -> (text: String)
        ensures
            text@ == match self.cause() {
                Some(cause) => self.fault().words() + ": "@ + cause,
                None => self.fault().words(),
            },
    {
        let sentence = self.kind().sentence().to_owned();
        match self.cause_text() {
            Some(cause) => sentence.concat(": ").concat(cause),
            None => sentence,
        }
    }
}

} // verus!
