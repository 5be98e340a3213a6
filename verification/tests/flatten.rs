use pdfresizer::discovery::EngineOutput;
use pdfresizer::flatten::{
    flatten_args, FlattenJob, FlattenStep, Reply, Request, INPUT_FILE_NAME, OUTPUT_FILE_NAME,
};

const INPUT: &str = "/tmp/pdfresizer_flatten_input.pdf";
const OUTPUT: &str = "/tmp/pdfresizer_flatten_output.pdf";

fn output(success: bool, stderr: &str) -> EngineOutput {
    EngineOutput {
        success,
        status: if success {
            "ExitStatus { code: Some(0) }".to_string()
        } else {
            "ExitStatus { code: Some(1) }".to_string()
        },
        stdout: String::new(),
        stderr: stderr.to_string(),
    }
}

fn failed(error: &str) -> Reply {
    Reply::Failed { error: error.to_string() }
}

fn expected_args() -> Vec<String> {
    vec![
        "-dBATCH".to_string(),
        "-dNOPAUSE".to_string(),
        "-dSAFER".to_string(),
        "-dQUIET".to_string(),
        "-sDEVICE=pdfwrite".to_string(),
        "-dNoOutputFonts".to_string(),
        "-dCompatibilityLevel=1.7".to_string(),
        format!("-sOutputFile={}", OUTPUT),
        INPUT.to_string(),
    ]
}

fn removal() -> Request {
    Request::RemoveFiles { paths: vec![INPUT.to_string(), OUTPUT.to_string()] }
}

/// Gives the replies to a new job one after the other and returns the
/// requests that were made and the result, if the job came to its end.
fn drive(replies: Vec<Reply>) -> (Vec<Request>, Option<Result<Vec<u8>, String>>) {
    let mut requests = Vec::new();
    let mut step = FlattenStep::Pending(FlattenJob::begin(INPUT.to_string(), OUTPUT.to_string()));
    let mut replies = replies.into_iter();
    loop {
        match step {
            FlattenStep::Finished(result) => return (requests, Some(result)),
            FlattenStep::Pending(job) => {
                requests.push(job.request());
                match replies.next() {
                    Some(reply) => step = job.advance(reply),
                    None => return (requests, None),
                }
            }
        }
    }
}

#[test]
fn temporary_file_names_are_fixed() {
    assert_eq!(INPUT_FILE_NAME, "pdfresizer_flatten_input.pdf");
    assert_eq!(OUTPUT_FILE_NAME, "pdfresizer_flatten_output.pdf");
}

#[test]
fn arguments_are_fixed_and_ordered() {
    assert_eq!(flatten_args(OUTPUT, INPUT), expected_args());
}

#[test]
fn arguments_take_the_paths_as_they_are() {
    let args = flatten_args("C:\\Temp\\out file.pdf", "C:\\Temp\\in file.pdf");
    assert_eq!(args.len(), 9);
    assert_eq!(args[7], "-sOutputFile=C:\\Temp\\out file.pdf");
    assert_eq!(args[8], "C:\\Temp\\in file.pdf");
}

#[test]
fn new_job_asks_for_the_input_to_be_written() {
    let job = FlattenJob::begin(INPUT.to_string(), OUTPUT.to_string());
    assert_eq!(job.request(), Request::WriteInput { path: INPUT.to_string() });
}

#[test]
fn success_returns_the_bytes_read() {
    let document = vec![0x25, 0x50, 0x44, 0x46, 0x2d, 0x31, 0x2e, 0x37, 0x00, 0xff];
    let (requests, result) = drive(vec![
        Reply::Done,
        Reply::Engine(output(true, "")),
        Reply::Bytes(document.clone()),
        Reply::Done,
    ]);
    assert_eq!(
        requests,
        vec![
            Request::WriteInput { path: INPUT.to_string() },
            Request::RunEngine { args: expected_args() },
            Request::ReadOutput { path: OUTPUT.to_string() },
            removal(),
        ]
    );
    assert_eq!(result, Some(Ok(document)));
}

#[test]
fn failing_engine_is_reported_with_its_diagnostic() {
    let (requests, result) = drive(vec![
        Reply::Done,
        Reply::Engine(output(false, "Error: /undefined in obj")),
        Reply::Done,
    ]);
    assert_eq!(result, Some(Err("Ghostscript failed: Error: /undefined in obj".to_string())));
    assert_eq!(requests.len(), 3);
    assert_eq!(requests[2], removal());
}

#[test]
fn failed_search_is_reported_as_it_is() {
    let error = "Failed to execute Ghostscript command 'gs': program not found";
    let (requests, result) = drive(vec![Reply::Done, failed(error), Reply::Done]);
    assert_eq!(result, Some(Err(error.to_string())));
    assert_eq!(requests.last(), Some(&removal()));
    assert_eq!(requests.len(), 3);
}

#[test]
fn search_result_becomes_a_reply() {
    assert_eq!(Reply::from_search(Ok(output(true, "w"))), Reply::Engine(output(true, "w")));
    assert_eq!(Reply::from_search(Err("none".to_string())), failed("none"));
}

#[test]
fn write_failure_is_reported() {
    let (requests, result) = drive(vec![failed("disk full"), Reply::Done]);
    assert_eq!(result, Some(Err("Failed to write temp input file: disk full".to_string())));
    assert_eq!(requests, vec![Request::WriteInput { path: INPUT.to_string() }, removal()]);
}

#[test]
fn read_failure_is_reported() {
    let (requests, result) = drive(vec![
        Reply::Done,
        Reply::Engine(output(true, "")),
        failed("No such file or directory"),
        Reply::Done,
    ]);
    assert_eq!(
        result,
        Some(Err("Failed to read flattened output: No such file or directory".to_string()))
    );
    assert_eq!(requests.last(), Some(&removal()));
}

#[test]
fn failed_removal_does_not_change_the_result() {
    let (_, result) = drive(vec![
        Reply::Done,
        Reply::Engine(output(true, "")),
        Reply::Bytes(vec![1, 2, 3]),
        failed("permission denied"),
    ]);
    assert_eq!(result, Some(Ok(vec![1, 2, 3])));
}

#[test]
fn job_does_not_end_before_the_removal() {
    let (requests, result) =
        drive(vec![Reply::Done, Reply::Engine(output(true, "")), Reply::Bytes(vec![7])]);
    assert_eq!(result, None);
    assert_eq!(requests.last(), Some(&removal()));
}

#[test]
fn reply_that_is_no_answer_changes_nothing() {
    let (requests, result) = drive(vec![
        Reply::Bytes(vec![1]),
        Reply::Engine(output(true, "")),
        Reply::Done,
        Reply::Done,
        Reply::Bytes(vec![2]),
        Reply::Engine(output(true, "")),
        Reply::Engine(output(true, "")),
        Reply::Done,
        Reply::Bytes(vec![9]),
        Reply::Done,
    ]);
    let write = Request::WriteInput { path: INPUT.to_string() };
    let run = Request::RunEngine { args: expected_args() };
    let read = Request::ReadOutput { path: OUTPUT.to_string() };
    assert_eq!(
        requests,
        vec![
            write.clone(),
            write.clone(),
            write,
            run.clone(),
            run.clone(),
            run,
            read.clone(),
            read.clone(),
            read,
            removal(),
        ]
    );
    assert_eq!(result, Some(Ok(vec![9])));
}

#[test]
fn empty_document_is_returned_as_it_is() {
    let (_, result) = drive(vec![
        Reply::Done,
        Reply::Engine(output(true, "")),
        Reply::Bytes(Vec::new()),
        Reply::Done,
    ]);
    assert_eq!(result, Some(Ok(Vec::new())));
}
