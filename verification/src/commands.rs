//! The small commands offered to the frontend: a greeting, a line for the
//! process log, and the version of the engine.

use vstd::prelude::*;
use crate::discovery::{
    begin, lemma_no_success_fails, outcome, search_result, succeeded,
    AttemptModel, EngineOutput, OutputModel, ProgressModel,
};
use crate::engine::{CandidateModel, Platform};
use crate::flatten::{
    engine_reply, lemma_engine_missing_is_reported, run, JobModel, ReplyModel, StepModel,
};
use crate::text::{prefixed, trim, trimmed};

verus! {

/// The greeting for `name`.
pub open spec fn greeting(name: Seq<char>) -> Seq<char> {
    "Hello, "@ + name + "! You've been greeted from Rust!"@
}

/// The line that records a path received from the frontend.
pub open spec fn path_line(path: Seq<char>) -> Seq<char> {
    "Received path from frontend: "@ + path
}

/// The arguments with which the engine reports its version.
pub open spec fn version_arguments() -> Seq<Seq<char>> {
    seq!["--version"@]
}

/// The version to show after an engine search that ended with `found`: the
/// engine's standard output without the whitespace around it, or the empty
/// text when no engine was found.
pub open spec fn version_text(found: Result<OutputModel, Seq<char>>) -> Seq<char> {
    match found {
        Ok(output) => trimmed(output.stdout),
        Err(_) => Seq::empty(),
    }
}

/// The line for the process log after an engine search for the version
/// that ended with `found`: the error, if it failed.
pub open spec fn version_log(found: Result<OutputModel, Seq<char>>) -> Option<Seq<char>> {
    match found {
        Ok(_) => None,
        Err(error) => Some("Ghostscript availability check failed: "@ + error),
    }
}

/// Greets `name`.
pub fn greet(name: &str) -> (out: String)
    ensures
        out@ == greeting(name@),
{
    let mut out = String::from_str("Hello, ");
    out.append(name);
    out.append("! You've been greeted from Rust!");
    out
}

/// Words the line to write to the process log for a path that the frontend
/// sent.
pub fn log_path(path: &str) -> (out: String)
    ensures
        out@ == path_line(path@),
{
    prefixed("Received path from frontend: ", path)
}

/// Lists the arguments with which the engine reports its version.
pub fn version_args() -> (out: Vec<String>)
    ensures
        out.deep_view() == version_arguments(),
{
    let mut out: Vec<String> = Vec::new();
    out.push(String::from_str("--version"));
    assert(out.deep_view() =~= version_arguments());
    out
}

/// Answers the question whether an engine is there from the end of a search
/// run with [`version_args`]: the version to show, which is empty when the
/// search failed, and the line to write to the process log, if any. A
/// failed search is no error here.
pub fn check_ghostscript(found: &Result<EngineOutput, String>) -> (out: (String, Option<String>))
    ensures
        out.0@ == version_text(search_result(*found)),
        out.1.deep_view() == version_log(search_result(*found)),
{
    match found {
        Ok(output) => (trim(output.stdout.as_str()), None),
        Err(error) => (
            String::new(),
            Some(prefixed("Ghostscript availability check failed: ", error.as_str())),
        ),
    }
}

/// With no engine in reach nothing halts and no document comes back: when
/// no attempt of a search succeeds, the search ends with an error, the
/// version shown is the empty text, and a flatten job that waits for the
/// engine asks for its files to be removed and ends with that error.
pub proof fn lemma_unreachable_engine(
    platform: Platform,
    candidates: Seq<CandidateModel>,
    attempts: Seq<AttemptModel>,
    job: JobModel,
    removed: ReplyModel,
)
    requires
        attempts.len() == candidates.len(),
        forall|j: int| 0 <= j < attempts.len() ==> !succeeded(#[trigger] attempts[j]),
        job.stage is Running,
    ensures
        ({
            let found = outcome(begin(platform, candidates), attempts);
            &&& found is Err
            &&& version_text(found) == Seq::<char>::empty()
            &&& run(StepModel::Pending(job), seq![engine_reply(found), removed])
                == StepModel::Finished(Err(found->Err_0))
        }),
{
    let start = begin(platform, candidates);
    match start {
        ProgressModel::Try(search) => {
            lemma_no_success_fails(search, attempts);
        },
        _ => {},
    }
    let found = outcome(start, attempts);
    lemma_engine_missing_is_reported(job, found->Err_0, removed);
}

} // verus!
