use pdfresizer::files::{check_file_existence, collect_startup_file_paths, PathKind, PathProbe};

fn probe(path: &str, kind: PathKind) -> PathProbe {
    PathProbe { path: path.to_string(), kind }
}

#[test]
fn existence_has_one_answer_per_path_in_order() {
    let probes = vec![
        probe("/tmp/a.pdf", PathKind::File),
        probe("/tmp/missing.pdf", PathKind::Missing),
        probe("/tmp", PathKind::Other),
        probe("/tmp/missing.pdf", PathKind::Missing),
    ];
    assert_eq!(check_file_existence(&probes), vec![true, false, true, false]);
}

#[test]
fn existence_of_no_paths_is_empty() {
    assert_eq!(check_file_existence(&Vec::new()), Vec::<bool>::new());
}

#[test]
fn existence_counts_directories() {
    assert_eq!(check_file_existence(&vec![probe("/", PathKind::Other)]), vec![true]);
}

#[test]
fn startup_leaves_out_the_program_name() {
    let args = vec![probe("/usr/bin/app", PathKind::File), probe("/home/u/a.pdf", PathKind::File)];
    assert_eq!(collect_startup_file_paths(&args), vec!["/home/u/a.pdf".to_string()]);
}

#[test]
fn startup_keeps_regular_files_only() {
    let args = vec![
        probe("app", PathKind::File),
        probe("--flag", PathKind::Missing),
        probe("/home/u/a.pdf", PathKind::File),
        probe("/home/u", PathKind::Other),
        probe("/home/u/b.pdf", PathKind::File),
        probe("/home/u/a.pdf", PathKind::File),
    ];
    assert_eq!(
        collect_startup_file_paths(&args),
        vec![
            "/home/u/a.pdf".to_string(),
            "/home/u/b.pdf".to_string(),
            "/home/u/a.pdf".to_string()
        ]
    );
}

#[test]
fn startup_without_arguments_is_empty() {
    assert_eq!(collect_startup_file_paths(&Vec::new()), Vec::<String>::new());
    assert_eq!(
        collect_startup_file_paths(&vec![probe("app", PathKind::File)]),
        Vec::<String>::new()
    );
}
