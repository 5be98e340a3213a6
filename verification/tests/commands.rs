use pdfresizer::commands::{check_ghostscript, greet, log_path, version_args};
use pdfresizer::discovery::EngineOutput;

fn output(success: bool, stdout: &str) -> EngineOutput {
    EngineOutput {
        success,
        status: "ExitStatus { code: Some(0) }".to_string(),
        stdout: stdout.to_string(),
        stderr: String::new(),
    }
}

#[test]
fn greet_names_the_guest() {
    assert_eq!(greet("Ada"), "Hello, Ada! You've been greeted from Rust!");
    assert_eq!(greet(""), "Hello, ! You've been greeted from Rust!");
}

#[test]
fn log_path_words_the_line() {
    assert_eq!(log_path("/home/u/a.pdf"), "Received path from frontend: /home/u/a.pdf");
}

#[test]
fn version_is_asked_with_one_argument() {
    assert_eq!(version_args(), vec!["--version".to_string()]);
}

#[test]
fn version_is_the_trimmed_output() {
    let found = Ok(output(true, "10.02.1\n"));
    assert_eq!(check_ghostscript(&found), ("10.02.1".to_string(), None));
}

#[test]
fn version_of_silent_engine_is_empty() {
    let found = Ok(output(true, " \n"));
    assert_eq!(check_ghostscript(&found), (String::new(), None));
}

#[test]
fn missing_engine_gives_empty_version_and_a_log_line() {
    let found = Err("Ghostscript is not available.".to_string());
    assert_eq!(
        check_ghostscript(&found),
        (
            String::new(),
            Some("Ghostscript availability check failed: Ghostscript is not available.".to_string())
        )
    );
}
