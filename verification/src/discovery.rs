//! The search for a working engine: the candidates are tried one after the
//! other, the first that runs and ends with success is taken, and when none
//! does the search fails with the diagnostic of the last attempt that
//! failed. The caller runs each candidate and reports what happened.

use vstd::prelude::*;
use crate::engine::{candidate_list, Candidate, CandidateModel, Platform};

verus! {

/// What a finished engine process left behind.
#[derive(Clone, Debug, PartialEq, Eq)]
pub struct EngineOutput {
    /// Whether the process ended with a success status.
    pub success: bool,
    /// The exit status as the process runner renders it for diagnostics.
    pub status: String,
    /// What the process wrote to its standard output.
    pub stdout: String,
    /// What the process wrote to its error stream.
    pub stderr: String,
}

/// The mathematical value of an [`EngineOutput`].
#[verifier::ext_equal]
pub struct OutputModel {
    pub success: bool,
    pub status: Seq<char>,
    pub stdout: Seq<char>,
    pub stderr: Seq<char>,
}

impl View for EngineOutput {
    type V = OutputModel;

    open spec fn view(&self) -> OutputModel {
        OutputModel {
            success: self.success,
            status: self.status@,
            stdout: self.stdout@,
            stderr: self.stderr@,
        }
    }
}

/// The mathematical value of the end of a search: the output of the engine
/// that was found, or the error.
pub open spec fn search_result(found: Result<EngineOutput, String>) -> Result<
    OutputModel,
    Seq<char>,
> {
    match found {
        Ok(output) => Ok(output@),
        Err(error) => Err(error@),
    }
}

/// What happened when one candidate was tried.
#[derive(Clone, Debug, PartialEq, Eq)]
pub enum Attempt {
    /// The candidate was not run: a bundled file that does not exist, or a
    /// sidecar that does not resolve.
    Skipped,
    /// The process could not be started; `error` says why.
    NotStarted { error: String },
    /// The process ran to its end.
    Exited(EngineOutput),
}

/// The mathematical value of an [`Attempt`].
#[verifier::ext_equal]
pub enum AttemptModel {
    Skipped,
    NotStarted { error: Seq<char> },
    Exited(OutputModel),
}

impl View for Attempt {
    type V = AttemptModel;

    open spec fn view(&self) -> AttemptModel {
        match self {
            Attempt::Skipped => AttemptModel::Skipped,
            Attempt::NotStarted { error } => AttemptModel::NotStarted { error: error@ },
            Attempt::Exited(output) => AttemptModel::Exited(output@),
        }
    }
}

/// Whether the attempt found a working engine: the process ran and ended
/// with success.
pub open spec fn succeeded(attempt: AttemptModel) -> bool {
    attempt matches AttemptModel::Exited(output) && output.success
}

/// The error a search ends with when no attempt left a diagnostic.
pub open spec fn not_available() -> Seq<char> {
    "Ghostscript is not available."@
}

/// How a candidate is called at the start of a sentence.
pub open spec fn subject(platform: Platform, candidate: CandidateModel) -> Seq<char> {
    match candidate {
        CandidateModel::Bundled { .. } => if platform == Platform::MacOs {
            "App-local macOS Ghostscript"@
        } else {
            "App-local Ghostscript"@
        },
        CandidateModel::Sidecar { .. } => "Ghostscript sidecar"@,
        CandidateModel::System { command } => "Ghostscript command '"@ + command + "'"@,
    }
}

/// How a candidate is called inside a sentence.
pub open spec fn object(platform: Platform, candidate: CandidateModel) -> Seq<char> {
    match candidate {
        CandidateModel::Bundled { .. } => if platform == Platform::MacOs {
            "app-local macOS Ghostscript"@
        } else {
            "app-local Ghostscript"@
        },
        _ => subject(platform, candidate),
    }
}

/// The diagnostic for a failed attempt; none for an attempt that was skipped
/// or that succeeded.
pub open spec fn failure_message(
    platform: Platform,
    candidate: CandidateModel,
    attempt: AttemptModel,
) -> Option<Seq<char>> {
    match attempt {
        AttemptModel::Skipped => None,
        AttemptModel::NotStarted { error } => Some(
            "Failed to execute "@ + object(platform, candidate) + ": "@ + error,
        ),
        AttemptModel::Exited(output) => if output.success {
            None
        } else {
            Some(
                subject(platform, candidate) + " failed with status "@ + output.status + ": "@
                    + output.stderr,
            )
        },
    }
}

/// Appends to `out` how `candidate` is called; `capital` chooses the form
/// for the start of a sentence.
fn append_name(out: &mut String, platform: Platform, candidate: &Candidate, capital: bool)
    ensures
        final(out)@ == old(out)@ + (if capital {
            subject(platform, candidate@)
        } else {
            object(platform, candidate@)
        }),
{
    match candidate {
        Candidate::Bundled { .. } => {
            out.append(if capital { "A" } else { "a" });
            match platform {
                Platform::MacOs => out.append("pp-local macOS Ghostscript"),
                _ => out.append("pp-local Ghostscript"),
            }
            proof {
                reveal_strlit("A");
                reveal_strlit("a");
                reveal_strlit("pp-local macOS Ghostscript");
                reveal_strlit("pp-local Ghostscript");
                reveal_strlit("App-local macOS Ghostscript");
                reveal_strlit("App-local Ghostscript");
                reveal_strlit("app-local macOS Ghostscript");
                reveal_strlit("app-local Ghostscript");
            }
        },
        Candidate::Sidecar { .. } => {
            out.append("Ghostscript sidecar");
        },
        Candidate::System { command } => {
            out.append("Ghostscript command '");
            out.append(command.as_str());
            out.append("'");
        },
    }
}

/// Words the diagnostic for a failed attempt on `candidate`; there is none
/// for an attempt that was skipped or that succeeded.
pub fn failure_text(platform: Platform, candidate: &Candidate, attempt: &Attempt) -> (out: Option<
    String,
>)
    ensures
        out.deep_view() == failure_message(platform, candidate@, attempt@),
{
    match attempt {
        Attempt::Skipped => None,
        Attempt::NotStarted { error } => {
            let mut text = String::from_str("Failed to execute ");
            append_name(&mut text, platform, candidate, false);
            text.append(": ");
            text.append(error.as_str());
            Some(text)
        },
        Attempt::Exited(output) => {
            if output.success {
                None
            } else {
                let mut text = String::new();
                append_name(&mut text, platform, candidate, true);
                text.append(" failed with status ");
                text.append(output.status.as_str());
                text.append(": ");
                text.append(output.stderr.as_str());
                Some(text)
            }
        },
    }
}

/// The mathematical value of a [`Discovery`]: a search that stands before
/// the candidate at `cursor`.
#[verifier::ext_equal]
pub struct DiscoveryModel {
    pub platform: Platform,
    pub candidates: Seq<CandidateModel>,
    pub cursor: int,
    pub last_error: Seq<char>,
}

/// The mathematical value of a [`Progress`].
#[verifier::ext_equal]
pub enum ProgressModel {
    Try(DiscoveryModel),
    Found(OutputModel),
    Exhausted(Seq<char>),
}

impl DiscoveryModel {
    /// A search that is under way has a candidate to try.
    pub open spec fn wf(self) -> bool {
        0 <= self.cursor < self.candidates.len()
    }

    /// The candidate that is to be tried now.
    pub open spec fn pending(self) -> CandidateModel {
        self.candidates[self.cursor]
    }

    /// Where the search stands once it has arrived at `self.cursor`: before
    /// that candidate, or at its end when the candidates are used up.
    pub open spec fn resume(self) -> ProgressModel {
        if self.cursor < self.candidates.len() {
            ProgressModel::Try(self)
        } else {
            ProgressModel::Exhausted(self.last_error)
        }
    }

    /// The error to end with after `attempt` on the pending candidate: the
    /// diagnostic of a failed attempt replaces the error kept so far, any
    /// other attempt leaves it.
    pub open spec fn error_after(self, attempt: AttemptModel) -> Seq<char> {
        match failure_message(self.platform, self.pending(), attempt) {
            Some(message) => message,
            None => self.last_error,
        }
    }

    /// The line for the process log after `attempt` on the pending
    /// candidate: the diagnostic of a failed attempt.
    pub open spec fn log_after(self, attempt: AttemptModel) -> Option<Seq<char>> {
        failure_message(self.platform, self.pending(), attempt)
    }

    /// Where the search stands after `attempt` on the pending candidate: a
    /// success ends it with that output, anything else moves on to the next
    /// candidate.
    pub open spec fn report(self, attempt: AttemptModel) -> ProgressModel {
        if succeeded(attempt) {
            ProgressModel::Found(attempt->Exited_0)
        } else {
            (DiscoveryModel {
                cursor: self.cursor + 1,
                last_error: self.error_after(attempt),
                ..self
            }).resume()
        }
    }
}

/// Where a search over `candidates` starts.
pub open spec fn begin(platform: Platform, candidates: Seq<CandidateModel>) -> ProgressModel {
    (DiscoveryModel { platform, candidates, cursor: 0, last_error: not_available() }).resume()
}

/// A search for a working engine that has a candidate to try.
#[derive(Debug)]
pub struct Discovery {
    platform: Platform,
    candidates: Vec<Candidate>,
    cursor: usize,
    last_error: String,
}

/// Where a search stands.
#[derive(Debug)]
pub enum Progress {
    /// The pending candidate of this search is to be tried and the outcome
    /// reported to it.
    Try(Discovery),
    /// An engine ran with success; this is its output.
    Found(EngineOutput),
    /// Every candidate was tried in vain; this is the error to report.
    Exhausted(String),
}

impl View for Discovery {
    type V = DiscoveryModel;

    closed spec fn view(&self) -> DiscoveryModel {
        DiscoveryModel {
            platform: self.platform,
            candidates: self.candidates.deep_view(),
            cursor: self.cursor as int,
            last_error: self.last_error@,
        }
    }
}

impl View for Progress {
    type V = ProgressModel;

    open spec fn view(&self) -> ProgressModel {
        match self {
            Progress::Try(search) => ProgressModel::Try(search@),
            Progress::Found(output) => ProgressModel::Found(output@),
            Progress::Exhausted(error) => ProgressModel::Exhausted(error@),
        }
    }
}

impl Discovery {
    #[verifier::type_invariant]
    spec fn has_candidate(self) -> bool {
        self.cursor < self.candidates.len()
    }

    /// Continues at `cursor`, or ends the search when no candidate is left.
    fn resume(
        platform: Platform,
        candidates: Vec<Candidate>,
        cursor: usize,
        last_error: String,
    ) -> (out: Progress)
        ensures
            out@ == (DiscoveryModel {
                platform,
                candidates: candidates.deep_view(),
                cursor: cursor as int,
                last_error: last_error@,
            }).resume(),
    {
        if cursor < candidates.len() {
            Progress::Try(Discovery { platform, candidates, cursor, last_error })
        } else {
            Progress::Exhausted(last_error)
        }
    }

    /// Starts a search over `candidates`, which are tried in the order
    /// given. With no candidate at all the search is over at once.
    pub fn begin(platform: Platform, candidates: Vec<Candidate>) -> (out: Progress)
        ensures
            out@ == begin(platform, candidates.deep_view()),
    {
        let last_error = String::from_str("Ghostscript is not available.");
        Discovery::resume(platform, candidates, 0, last_error)
    }

    /// The platform the search was started for.
    pub fn platform(&self) -> (out: Platform)
        ensures
            out == self@.platform,
    {
        self.platform
    }

    /// How many candidates were tried before the pending one.
    pub fn position(&self) -> (out: usize)
        ensures
            out == self@.cursor,
            self@.wf(),
    {
        proof {
            use_type_invariant(self);
        }
        self.cursor
    }

    /// The candidate that is to be tried now.
    pub fn candidate(&self) -> (out: &Candidate)
        ensures
            self@.wf(),
            out@ == self@.pending(),
    {
        proof {
            use_type_invariant(self);
        }
        &self.candidates[self.cursor]
    }

    /// Takes in what happened when the pending candidate was tried and says
    /// where the search stands now, together with the line to write to the
    /// process log, which is the diagnostic of the attempt if it failed.
    pub fn report(self, attempt: Attempt) -> (out: (Progress, Option<String>))
        ensures
            self@.wf(),
            out.0@ == self@.report(attempt@),
            out.1.deep_view() == self@.log_after(attempt@),
    {
        proof {
            use_type_invariant(&self);
        }
        let message = failure_text(self.platform, &self.candidates[self.cursor], &attempt);
        match attempt {
            Attempt::Exited(output) => {
                if output.success {
                    return (Progress::Found(output), None);
                }
            },
            _ => {},
        }
        let Discovery { platform, candidates, cursor, last_error } = self;
        match message {
            Some(text) => {
                let line = text.clone();
                (Discovery::resume(platform, candidates, cursor + 1, text), Some(line))
            },
            None => (Discovery::resume(platform, candidates, cursor + 1, last_error), None),
        }
    }
}

/// How many candidates a search has still before it.
pub open spec fn remaining(progress: ProgressModel) -> nat {
    match progress {
        ProgressModel::Try(search) => if search.wf() {
            (search.candidates.len() - search.cursor) as nat
        } else {
            0
        },
        _ => 0,
    }
}

/// How a search ends when the candidate at each position `k` answers with
/// `attempts[k]`.
pub open spec fn outcome(progress: ProgressModel, attempts: Seq<AttemptModel>) -> Result<
    OutputModel,
    Seq<char>,
>
    recommends
        progress matches ProgressModel::Try(search) ==> search.wf() && attempts.len()
            == search.candidates.len(),
    decreases remaining(progress),
{
    match progress {
        ProgressModel::Found(output) => Ok(output),
        ProgressModel::Exhausted(error) => Err(error),
        ProgressModel::Try(search) => if search.wf() {
            outcome(search.report(attempts[search.cursor]), attempts)
        } else {
            Err(search.last_error)
        },
    }
}

/// The candidates that the caller is asked to try, in the order in which it
/// is asked, when the candidate at each position `k` answers with
/// `attempts[k]`.
pub open spec fn consulted(progress: ProgressModel, attempts: Seq<AttemptModel>) -> Seq<
    CandidateModel,
>
    recommends
        progress matches ProgressModel::Try(search) ==> search.wf() && attempts.len()
            == search.candidates.len(),
    decreases remaining(progress),
{
    match progress {
        ProgressModel::Try(search) => if search.wf() {
            seq![search.pending()] + consulted(search.report(attempts[search.cursor]), attempts)
        } else {
            Seq::empty()
        },
        _ => Seq::empty(),
    }
}

/// The error that stands after the candidates before position `upto` were
/// all tried in vain: the diagnostic of the last failed attempt among them,
/// or the error the search had when none of them left a diagnostic.
pub open spec fn error_before(
    search: DiscoveryModel,
    attempts: Seq<AttemptModel>,
    upto: int,
) -> Seq<char>
    decreases upto - search.cursor,
{
    if upto <= search.cursor {
        search.last_error
    } else {
        match failure_message(search.platform, search.candidates[upto - 1], attempts[upto - 1]) {
            Some(message) => message,
            None => error_before(search, attempts, upto - 1),
        }
    }
}

/// Moving the start of a search past a candidate that failed does not
/// change the error that stands at a later position.
proof fn lemma_error_before_step(search: DiscoveryModel, attempts: Seq<AttemptModel>, upto: int)
    requires
        search.wf(),
        attempts.len() == search.candidates.len(),
        search.cursor < upto <= search.candidates.len(),
    ensures
        error_before(search, attempts, upto) == error_before(
            DiscoveryModel {
                cursor: search.cursor + 1,
                last_error: search.error_after(attempts[search.cursor]),
                ..search
            },
            attempts,
            upto,
        ),
    decreases upto - search.cursor,
{
    if upto > search.cursor + 1 {
        lemma_error_before_step(search, attempts, upto - 1);
    } else {
        assert(error_before(search, attempts, upto - 1) == search.last_error);
    }
}

/// The first success wins: when the candidate at position `k` is the first
/// from the pending one on whose attempt succeeds, the search ends with the
/// output of that attempt, and the candidates the caller was asked to try
/// are exactly those from the pending one up to position `k`, in the order
/// of the list.
pub proof fn lemma_first_success_wins(
    search: DiscoveryModel,
    attempts: Seq<AttemptModel>,
    k: int,
)
    requires
        search.wf(),
        attempts.len() == search.candidates.len(),
        search.cursor <= k < search.candidates.len(),
        succeeded(attempts[k]),
        forall|j: int| search.cursor <= j < k ==> !succeeded(#[trigger] attempts[j]),
    ensures
        outcome(ProgressModel::Try(search), attempts) == Ok::<OutputModel, Seq<char>>(
            attempts[k]->Exited_0,
        ),
        consulted(ProgressModel::Try(search), attempts) == search.candidates.subrange(
            search.cursor,
            k + 1,
        ),
    decreases k - search.cursor,
{
    let next = search.report(attempts[search.cursor]);
    if search.cursor == k {
        assert(consulted(next, attempts) == Seq::<CandidateModel>::empty());
    } else {
        let moved = DiscoveryModel {
            cursor: search.cursor + 1,
            last_error: search.error_after(attempts[search.cursor]),
            ..search
        };
        assert(next == ProgressModel::Try(moved));
        lemma_first_success_wins(moved, attempts, k);
    }
    assert(consulted(ProgressModel::Try(search), attempts) =~= search.candidates.subrange(
        search.cursor,
        k + 1,
    ));
}

/// Without a success the search fails: when no attempt from the pending
/// candidate on succeeds, every candidate from the pending one to the last
/// is tried, in the order of the list, and the search ends with the
/// diagnostic of the last failed attempt, or with the error it had when no
/// attempt left a diagnostic.
pub proof fn lemma_no_success_fails(search: DiscoveryModel, attempts: Seq<AttemptModel>)
    requires
        search.wf(),
        attempts.len() == search.candidates.len(),
        forall|j: int|
            search.cursor <= j < search.candidates.len() ==> !succeeded(#[trigger] attempts[j]),
    ensures
        outcome(ProgressModel::Try(search), attempts) == Err::<OutputModel, Seq<char>>(
            error_before(search, attempts, search.candidates.len() as int),
        ),
        consulted(ProgressModel::Try(search), attempts) == search.candidates.subrange(
            search.cursor,
            search.candidates.len() as int,
        ),
    decreases search.candidates.len() - search.cursor,
{
    let next = search.report(attempts[search.cursor]);
    let moved = DiscoveryModel {
        cursor: search.cursor + 1,
        last_error: search.error_after(attempts[search.cursor]),
        ..search
    };
    lemma_error_before_step(search, attempts, search.candidates.len() as int);
    if search.cursor + 1 < search.candidates.len() {
        assert(next == ProgressModel::Try(moved));
        lemma_no_success_fails(moved, attempts);
    } else {
        assert(next == ProgressModel::Exhausted(moved.last_error));
        assert(consulted(next, attempts) == Seq::<CandidateModel>::empty());
    }
    assert(consulted(ProgressModel::Try(search), attempts) =~= search.candidates.subrange(
        search.cursor,
        search.candidates.len() as int,
    ));
}

/// The candidates are tried in the documented order: a search over the
/// candidates of a platform, in which the candidate at position `k` is the
/// first whose attempt succeeds, asks for the first `k + 1` candidates of
/// the platform's list, one after the other, and ends with the output of
/// that attempt.
pub proof fn lemma_documented_order(
    platform: Platform,
    exe_dir_known: bool,
    working_dir_known: bool,
    attempts: Seq<AttemptModel>,
    k: int,
)
    requires
        attempts.len() == candidate_list(platform, exe_dir_known, working_dir_known).len(),
        0 <= k < attempts.len(),
        succeeded(attempts[k]),
        forall|j: int| 0 <= j < k ==> !succeeded(#[trigger] attempts[j]),
    ensures
        ({
            let list = candidate_list(platform, exe_dir_known, working_dir_known);
            &&& outcome(begin(platform, list), attempts) == Ok::<OutputModel, Seq<char>>(
                attempts[k]->Exited_0,
            )
            &&& consulted(begin(platform, list), attempts) == list.take(k + 1)
        }),
{
    let list = candidate_list(platform, exe_dir_known, working_dir_known);
    let search = DiscoveryModel { platform, candidates: list, cursor: 0, last_error: not_available() };
    lemma_first_success_wins(search, attempts, k);
}

/// A failed engine is heard: the diagnostic of a candidate that ran and
/// ended without success closes with what the engine wrote to its error
/// stream, and when that candidate is the last of the list and none before
/// it succeeded, the whole search ends with that diagnostic.
pub proof fn lemma_failure_carries_diagnostic(
    search: DiscoveryModel,
    attempts: Seq<AttemptModel>,
    output: OutputModel,
)
    requires
        search.wf(),
        attempts.len() == search.candidates.len(),
        forall|j: int|
            search.cursor <= j < search.candidates.len() ==> !succeeded(#[trigger] attempts[j]),
        attempts.last() == AttemptModel::Exited(output),
    ensures
        ({
            let message = failure_message(
                search.platform,
                search.candidates.last(),
                attempts.last(),
            );
            &&& message is Some
            &&& outcome(ProgressModel::Try(search), attempts) == Err::<OutputModel, Seq<char>>(
                message->0,
            )
            &&& message->0.subrange(message->0.len() - output.stderr.len(), message->0.len() as int)
                == output.stderr
        }),
{
    lemma_no_success_fails(search, attempts);
}

} // verus!
