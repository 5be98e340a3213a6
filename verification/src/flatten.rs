//! One flatten request, step by step: the document is written to a
//! temporary input file, the engine rewrites it into a temporary output
//! file, the output is read back, and both files are removed whatever
//! happened. The job decides what is to be done next; the caller does it
//! and replies with the outcome.

use vstd::prelude::*;
use crate::discovery::{search_result, EngineOutput, OutputModel};
use crate::text::prefixed;

verus! {

/// The name of the temporary file that receives the document.
pub const INPUT_FILE_NAME: &'static str = "pdfresizer_flatten_input.pdf";

/// The name of the temporary file that the engine writes.
pub const OUTPUT_FILE_NAME: &'static str = "pdfresizer_flatten_output.pdf";

/// What the caller is asked to do.
#[derive(Clone, Debug, PartialEq, Eq)]
pub enum Request {
    /// Write the document, byte for byte, to the file at `path`, replacing
    /// what it held.
    WriteInput { path: String },
    /// Search for an engine and run it with `args`.
    RunEngine { args: Vec<String> },
    /// Read the whole file at `path`.
    ReadOutput { path: String },
    /// Remove the files at `paths`; a file that cannot be removed is left.
    RemoveFiles { paths: Vec<String> },
}

/// The mathematical value of a [`Request`].
#[verifier::ext_equal]
pub enum RequestModel {
    WriteInput { path: Seq<char> },
    RunEngine { args: Seq<Seq<char>> },
    ReadOutput { path: Seq<char> },
    RemoveFiles { paths: Seq<Seq<char>> },
}

impl View for Request {
    type V = RequestModel;

    open spec fn view(&self) -> RequestModel {
        match self {
            Request::WriteInput { path } => RequestModel::WriteInput { path: path@ },
            Request::RunEngine { args } => RequestModel::RunEngine { args: args.deep_view() },
            Request::ReadOutput { path } => RequestModel::ReadOutput { path: path@ },
            Request::RemoveFiles { paths } => RequestModel::RemoveFiles {
                paths: paths.deep_view(),
            },
        }
    }
}

/// What the caller reports after a request.
#[derive(Clone, Debug, PartialEq, Eq)]
pub enum Reply {
    /// The file was written, or the removal was attempted.
    Done,
    /// The request could not be carried out; `error` says why. After
    /// [`Request::RunEngine`] it is the error of the engine search.
    Failed { error: String },
    /// An engine was found and ran; this is its output.
    Engine(EngineOutput),
    /// The contents of the file that was read.
    Bytes(Vec<u8>),
}

/// The mathematical value of a [`Reply`].
#[verifier::ext_equal]
pub enum ReplyModel {
    Done,
    Failed { error: Seq<char> },
    Engine(OutputModel),
    Bytes(Seq<u8>),
}

impl View for Reply {
    type V = ReplyModel;

    open spec fn view(&self) -> ReplyModel {
        match self {
            Reply::Done => ReplyModel::Done,
            Reply::Failed { error } => ReplyModel::Failed { error: error@ },
            Reply::Engine(output) => ReplyModel::Engine(output@),
            Reply::Bytes(bytes) => ReplyModel::Bytes(bytes@),
        }
    }
}

/// The reply that tells the job how the engine search ended.
pub open spec fn engine_reply(found: Result<OutputModel, Seq<char>>) -> ReplyModel {
    match found {
        Ok(output) => ReplyModel::Engine(output),
        Err(error) => ReplyModel::Failed { error },
    }
}

impl Reply {
    /// Words the end of an engine search as a reply to
    /// [`Request::RunEngine`].
    pub fn from_search(found: Result<EngineOutput, String>) -> (out: Reply)
        ensures
            out@ == engine_reply(search_result(found)),
    {
        match found {
            Ok(output) => Reply::Engine(output),
            Err(error) => Reply::Failed { error },
        }
    }
}

/// What a flatten request ends with: the rewritten document or an error.
pub type Flattened = Result<Vec<u8>, String>;

/// The mathematical value of a [`Flattened`].
pub open spec fn flattened(result: Flattened) -> Result<Seq<u8>, Seq<char>> {
    match result {
        Ok(bytes) => Ok(bytes@),
        Err(error) => Err(error@),
    }
}

/// How far a job has come.
#[verifier::ext_equal]
pub enum StageModel {
    /// The input file is to be written.
    Writing,
    /// The engine is to be run.
    Running,
    /// The output file is to be read.
    Reading,
    /// The temporary files are to be removed; after that the job ends with
    /// the result held here.
    Cleaning(Result<Seq<u8>, Seq<char>>),
}

/// The mathematical value of a [`FlattenJob`].
#[verifier::ext_equal]
pub struct JobModel {
    pub input_path: Seq<char>,
    pub output_path: Seq<char>,
    pub stage: StageModel,
}

/// The mathematical value of a [`FlattenStep`].
#[verifier::ext_equal]
pub enum StepModel {
    Pending(JobModel),
    Finished(Result<Seq<u8>, Seq<char>>),
}

/// The arguments of the engine for flattening the file at `input_path`
/// into the file at `output_path`: batch mode, no pause, restricted file
/// access, no banner, rewriting as PDF, fonts turned into outlines, PDF
/// version 1.7, then the output file and the input file.
pub open spec fn flatten_arguments(output_path: Seq<char>, input_path: Seq<char>) -> Seq<
    Seq<char>,
> {
    seq![
        "-dBATCH"@,
        "-dNOPAUSE"@,
        "-dSAFER"@,
        "-dQUIET"@,
        "-sDEVICE=pdfwrite"@,
        "-dNoOutputFonts"@,
        "-dCompatibilityLevel=1.7"@,
        "-sOutputFile="@ + output_path,
        input_path,
    ]
}

/// The error for a document that could not be written.
pub open spec fn write_failure(error: Seq<char>) -> Seq<char> {
    "Failed to write temp input file: "@ + error
}

/// The error for an engine that ran and ended without success; `stderr` is
/// what it wrote to its error stream.
pub open spec fn engine_failure(stderr: Seq<char>) -> Seq<char> {
    "Ghostscript failed: "@ + stderr
}

/// The error for an output file that could not be read.
pub open spec fn read_failure(error: Seq<char>) -> Seq<char> {
    "Failed to read flattened output: "@ + error
}

impl JobModel {
    /// The job, arrived at `stage`.
    pub open spec fn at(self, stage: StageModel) -> JobModel {
        JobModel { stage, ..self }
    }

    /// What the job asks for at its stage.
    pub open spec fn request(self) -> RequestModel {
        match self.stage {
            StageModel::Writing => RequestModel::WriteInput { path: self.input_path },
            StageModel::Running => RequestModel::RunEngine {
                args: flatten_arguments(self.output_path, self.input_path),
            },
            StageModel::Reading => RequestModel::ReadOutput { path: self.output_path },
            StageModel::Cleaning(_) => RequestModel::RemoveFiles {
                paths: seq![self.input_path, self.output_path],
            },
        }
    }

    /// Whether `reply` is an answer to what the job asks for.
    pub open spec fn answered_by(self, reply: ReplyModel) -> bool {
        match self.stage {
            StageModel::Writing => reply is Done || reply is Failed,
            StageModel::Running => reply is Engine || reply is Failed,
            StageModel::Reading => reply is Bytes || reply is Failed,
            StageModel::Cleaning(_) => true,
        }
    }

    /// Where the job stands after `reply`. A reply that is no answer to the
    /// request leaves the job as it is. Every failure, and the output once
    /// it is read, leads to the removal of the temporary files; the job ends
    /// after that removal, however it went.
    pub open spec fn advance(self, reply: ReplyModel) -> StepModel {
        match (self.stage, reply) {
            (StageModel::Writing, ReplyModel::Done) => StepModel::Pending(
                self.at(StageModel::Running),
            ),
            (StageModel::Writing, ReplyModel::Failed { error }) => StepModel::Pending(
                self.at(StageModel::Cleaning(Err(write_failure(error)))),
            ),
            (StageModel::Running, ReplyModel::Engine(output)) => if output.success {
                StepModel::Pending(self.at(StageModel::Reading))
            } else {
                StepModel::Pending(
                    self.at(StageModel::Cleaning(Err(engine_failure(output.stderr)))),
                )
            },
            (StageModel::Running, ReplyModel::Failed { error }) => StepModel::Pending(
                self.at(StageModel::Cleaning(Err(error))),
            ),
            (StageModel::Reading, ReplyModel::Bytes(bytes)) => StepModel::Pending(
                self.at(StageModel::Cleaning(Ok(bytes))),
            ),
            (StageModel::Reading, ReplyModel::Failed { error }) => StepModel::Pending(
                self.at(StageModel::Cleaning(Err(read_failure(error)))),
            ),
            (StageModel::Cleaning(result), _) => StepModel::Finished(result),
            _ => StepModel::Pending(self),
        }
    }
}

/// Where a new job starts: before the writing of the input file.
pub open spec fn new_job(input_path: Seq<char>, output_path: Seq<char>) -> JobModel {
    JobModel { input_path, output_path, stage: StageModel::Writing }
}

/// Lists the engine's arguments for flattening the file at `input_path`
/// into the file at `output_path`.
pub fn flatten_args(output_path: &str, input_path: &str) -> (out: Vec<String>)
    ensures
        out.deep_view() == flatten_arguments(output_path@, input_path@),
{
    let mut out: Vec<String> = Vec::new();
    out.push(String::from_str("-dBATCH"));
    out.push(String::from_str("-dNOPAUSE"));
    out.push(String::from_str("-dSAFER"));
    out.push(String::from_str("-dQUIET"));
    out.push(String::from_str("-sDEVICE=pdfwrite"));
    out.push(String::from_str("-dNoOutputFonts"));
    out.push(String::from_str("-dCompatibilityLevel=1.7"));
    out.push(prefixed("-sOutputFile=", output_path));
    out.push(String::from_str(input_path));
    assert(out.deep_view() =~= flatten_arguments(output_path@, input_path@));
    out
}

/// How far a job has come, with the result it holds while cleaning up.
#[derive(Debug)]
enum Stage {
    Writing,
    Running,
    Reading,
    Cleaning(Flattened),
}

impl View for Stage {
    type V = StageModel;

    closed spec fn view(&self) -> StageModel {
        match self {
            Stage::Writing => StageModel::Writing,
            Stage::Running => StageModel::Running,
            Stage::Reading => StageModel::Reading,
            Stage::Cleaning(result) => StageModel::Cleaning(flattened(*result)),
        }
    }
}

/// A flatten request under way.
#[derive(Debug)]
pub struct FlattenJob {
    input_path: String,
    output_path: String,
    stage: Stage,
}

/// Where a flatten request stands.
#[derive(Debug)]
pub enum FlattenStep {
    /// The job asks for something; the outcome is to be reported to it.
    Pending(FlattenJob),
    /// The request is over with this result.
    Finished(Flattened),
}

impl View for FlattenJob {
    type V = JobModel;

    closed spec fn view(&self) -> JobModel {
        JobModel {
            input_path: self.input_path@,
            output_path: self.output_path@,
            stage: self.stage@,
        }
    }
}

impl View for FlattenStep {
    type V = StepModel;

    open spec fn view(&self) -> StepModel {
        match self {
            FlattenStep::Pending(job) => StepModel::Pending(job@),
            FlattenStep::Finished(result) => StepModel::Finished(flattened(*result)),
        }
    }
}

impl FlattenJob {
    /// Starts a job that uses the temporary files at `input_path` and
    /// `output_path`.
    pub fn begin(input_path: String, output_path: String) -> (out: FlattenJob)
        ensures
            out@ == new_job(input_path@, output_path@),
    {
        FlattenJob { input_path, output_path, stage: Stage::Writing }
    }

    /// Says what the caller is to do now.
    pub fn request(&self) -> (out: Request)
        ensures
            out@ == self@.request(),
    {
        match &self.stage {
            Stage::Writing => Request::WriteInput { path: self.input_path.clone() },
            Stage::Running => Request::RunEngine {
                args: flatten_args(self.output_path.as_str(), self.input_path.as_str()),
            },
            Stage::Reading => Request::ReadOutput { path: self.output_path.clone() },
            Stage::Cleaning(_) => {
                let mut paths: Vec<String> = Vec::new();
                paths.push(self.input_path.clone());
                paths.push(self.output_path.clone());
                assert(paths.deep_view() =~= seq![self.input_path@, self.output_path@]);
                Request::RemoveFiles { paths }
            },
        }
    }

    /// Continues at `stage`.
    fn at(input_path: String, output_path: String, stage: Stage) -> (out: FlattenStep)
        ensures
            out@ == StepModel::Pending(
                JobModel { input_path: input_path@, output_path: output_path@, stage: stage@ },
            ),
    {
        FlattenStep::Pending(FlattenJob { input_path, output_path, stage })
    }

    /// Takes in the caller's reply to the request and says where the job
    /// stands now.
    pub fn advance(self, reply: Reply) -> (out: FlattenStep)
        ensures
            out@ == self@.advance(reply@),
    {
        let FlattenJob { input_path, output_path, stage } = self;
        match (stage, reply) {
            (Stage::Writing, Reply::Done) => FlattenJob::at(input_path, output_path, Stage::Running),
            (Stage::Writing, Reply::Failed { error }) => {
                let message = prefixed("Failed to write temp input file: ", error.as_str());
                FlattenJob::at(input_path, output_path, Stage::Cleaning(Err(message)))
            },
            (Stage::Running, Reply::Engine(output)) => {
                if output.success {
                    FlattenJob::at(input_path, output_path, Stage::Reading)
                } else {
                    let message = prefixed("Ghostscript failed: ", output.stderr.as_str());
                    FlattenJob::at(input_path, output_path, Stage::Cleaning(Err(message)))
                }
            },
            (Stage::Running, Reply::Failed { error }) => FlattenJob::at(
                input_path,
                output_path,
                Stage::Cleaning(Err(error)),
            ),
            (Stage::Reading, Reply::Bytes(bytes)) => FlattenJob::at(
                input_path,
                output_path,
                Stage::Cleaning(Ok(bytes)),
            ),
            (Stage::Reading, Reply::Failed { error }) => {
                let message = prefixed("Failed to read flattened output: ", error.as_str());
                FlattenJob::at(input_path, output_path, Stage::Cleaning(Err(message)))
            },
            (Stage::Cleaning(result), _) => FlattenStep::Finished(result),
            (stage, _) => FlattenJob::at(input_path, output_path, stage),
        }
    }
}

/// Where a job stands after the caller has given `replies`, one after the
/// other, each to the request that was pending then.
pub open spec fn run(step: StepModel, replies: Seq<ReplyModel>) -> StepModel
    decreases replies.len(),
{
    match step {
        StepModel::Finished(_) => step,
        StepModel::Pending(job) => if replies.len() == 0 {
            step
        } else {
            run(job.advance(replies.first()), replies.drop_first())
        },
    }
}

/// The requests that the caller gets while it gives `replies`: the pending
/// one first, then the one after each reply, until the job is over.
pub open spec fn asked(step: StepModel, replies: Seq<ReplyModel>) -> Seq<RequestModel>
    decreases replies.len(),
{
    match step {
        StepModel::Finished(_) => Seq::empty(),
        StepModel::Pending(job) => seq![job.request()] + (if replies.len() == 0 {
            Seq::empty()
        } else {
            asked(job.advance(replies.first()), replies.drop_first())
        }),
    }
}

/// The request to remove both temporary files of `job`.
pub open spec fn removal(job: JobModel) -> RequestModel {
    RequestModel::RemoveFiles { paths: seq![job.input_path, job.output_path] }
}

/// No job ends before its temporary files were to be removed: whatever the
/// replies, when they bring the job to its end, the last request was the
/// removal of both files, and the result is the one the job held then.
pub proof fn lemma_removal_comes_last(job: JobModel, replies: Seq<ReplyModel>)
    requires
        run(StepModel::Pending(job), replies) is Finished,
    ensures
        asked(StepModel::Pending(job), replies).last() == removal(job),
    decreases replies.len(),
{
    let next = job.advance(replies.first());
    let rest = replies.drop_first();
    match next {
        StepModel::Finished(_) => {
            assert(asked(next, rest) == Seq::<RequestModel>::empty());
            assert(asked(StepModel::Pending(job), replies) =~= seq![job.request()]);
        },
        StepModel::Pending(moved) => {
            lemma_removal_comes_last(moved, rest);
            assert(asked(next, rest).len() > 0);
        },
    }
}

/// A request that goes well: the input is written, the engine ends with
/// success, the output is read and both files are removed, in this order and
/// with the fixed arguments; the result is what the output file held, byte
/// for byte.
pub proof fn lemma_flatten_succeeds(
    input_path: Seq<char>,
    output_path: Seq<char>,
    output: OutputModel,
    bytes: Seq<u8>,
    removed: ReplyModel,
)
    requires
        output.success,
    ensures
        ({
            let start = StepModel::Pending(new_job(input_path, output_path));
            let replies = seq![
                ReplyModel::Done,
                ReplyModel::Engine(output),
                ReplyModel::Bytes(bytes),
                removed,
            ];
            &&& run(start, replies) == StepModel::Finished(Ok(bytes))
            &&& asked(start, replies) == seq![
                RequestModel::WriteInput { path: input_path },
                RequestModel::RunEngine { args: flatten_arguments(output_path, input_path) },
                RequestModel::ReadOutput { path: output_path },
                RequestModel::RemoveFiles { paths: seq![input_path, output_path] },
            ]
        }),
{
    let job = new_job(input_path, output_path);
    let replies = seq![
        ReplyModel::Done,
        ReplyModel::Engine(output),
        ReplyModel::Bytes(bytes),
        removed,
    ];
    let r1 = replies.drop_first();
    let r2 = r1.drop_first();
    let r3 = r2.drop_first();
    let r4 = r3.drop_first();
    assert(r4.len() == 0);
    reveal_with_fuel(run, 5);
    reveal_with_fuel(asked, 5);
    assert(asked(StepModel::Pending(job), replies) =~= seq![
        RequestModel::WriteInput { path: input_path },
        RequestModel::RunEngine { args: flatten_arguments(output_path, input_path) },
        RequestModel::ReadOutput { path: output_path },
        RequestModel::RemoveFiles { paths: seq![input_path, output_path] },
    ]);
}

/// An engine that fails is reported and nothing is left behind: when the
/// engine ran and ended without success, the job asks for the removal of
/// both temporary files and then ends with an error that closes with what
/// the engine wrote to its error stream.
pub proof fn lemma_engine_failure_is_reported(
    job: JobModel,
    output: OutputModel,
    removed: ReplyModel,
)
    requires
        job.stage is Running,
        !output.success,
    ensures
        ({
            let start = StepModel::Pending(job);
            let replies = seq![ReplyModel::Engine(output), removed];
            let error = engine_failure(output.stderr);
            &&& run(start, replies) == StepModel::Finished(Err(error))
            &&& asked(start, replies) == seq![job.request(), removal(job)]
            &&& error.subrange(error.len() - output.stderr.len(), error.len() as int)
                == output.stderr
        }),
{
    let replies = seq![ReplyModel::Engine(output), removed];
    let r1 = replies.drop_first();
    let r2 = r1.drop_first();
    assert(r2.len() == 0);
    reveal_with_fuel(run, 3);
    reveal_with_fuel(asked, 3);
    assert(asked(StepModel::Pending(job), replies) =~= seq![job.request(), removal(job)]);
}

/// An engine search that fails is reported and nothing is left behind:
/// the job asks for the removal of both temporary files and then ends with
/// the error of the search; it never ends with a document.
pub proof fn lemma_engine_missing_is_reported(
    job: JobModel,
    error: Seq<char>,
    removed: ReplyModel,
)
    requires
        job.stage is Running,
    ensures
        ({
            let start = StepModel::Pending(job);
            let replies = seq![ReplyModel::Failed { error }, removed];
            &&& run(start, replies) == StepModel::Finished(Err(error))
            &&& asked(start, replies) == seq![job.request(), removal(job)]
        }),
{
    let replies = seq![ReplyModel::Failed { error }, removed];
    let r1 = replies.drop_first();
    let r2 = r1.drop_first();
    assert(r2.len() == 0);
    reveal_with_fuel(run, 3);
    reveal_with_fuel(asked, 3);
    assert(asked(StepModel::Pending(job), replies) =~= seq![job.request(), removal(job)]);
}

} // verus!
