//! Normalizes what API fuzzing engines leave behind after a run into one record per test
//! case.
//!
//! Every engine prints its findings in a format of its own. The parsers under `fuzzers`
//! read these formats and classify each test as passed, skipped, failed, a recommendation,
//! or an error of the engine itself; `output` holds the record they all produce. `search`
//! picks the runs of an artifacts directory, `metadata` reads the descriptor of a run, and
//! `dispatcher` leads one run from its descriptor to its test cases. `targets` and `sentry`
//! read what the targets logged and what the error tracker collected.
//!
//! Regular expressions, URLs, globs and JSON come from the crates that implement them. What
//! those crates answer is not restated here: `pattern`, `web`, `glob` and `json` give each
//! answer a name, and the contracts of the parsers are written over those names.

pub mod dispatcher;
pub mod error;
pub mod fuzzers;
pub mod glob;
pub mod identity;
pub mod json;
pub mod metadata;
pub mod output;
pub mod pattern;
pub mod search;
pub mod sentry;
pub mod targets;
pub mod text;
pub mod web;
