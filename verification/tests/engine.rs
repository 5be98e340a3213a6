use pdfresizer::engine::{candidates, Candidate, Platform, Root};

fn bundled(root: Root, parts: &[&str]) -> Candidate {
    Candidate::Bundled { root, parts: parts.iter().map(|part| part.to_string()).collect() }
}

fn sidecar(name: &str) -> Candidate {
    Candidate::Sidecar { name: name.to_string() }
}

fn system(command: &str) -> Candidate {
    Candidate::System { command: command.to_string() }
}

#[test]
fn macos_tries_bundle_then_sidecar_then_search_path() {
    let expected = vec![
        bundled(Root::ExeDir, &["..", "Resources", "ghostscript", "bin", "gs"]),
        bundled(Root::WorkingDir, &["src-tauri", "bin", "ghostscript", "bin", "gs"]),
        bundled(Root::ExeDir, &["gs"]),
        bundled(Root::ExeDir, &["gs-aarch64-apple-darwin"]),
        bundled(Root::ExeDir, &["gs-x86_64-apple-darwin"]),
        bundled(Root::ExeDir, &["gs-universal-apple-darwin"]),
        bundled(Root::ExeDir, &["..", "Resources", "gs"]),
        bundled(Root::ExeDir, &["..", "Resources", "gs-aarch64-apple-darwin"]),
        bundled(Root::ExeDir, &["..", "Resources", "gs-x86_64-apple-darwin"]),
        bundled(Root::ExeDir, &["..", "Resources", "gs-universal-apple-darwin"]),
        sidecar("gs"),
        system("gs"),
    ];
    assert_eq!(candidates(Platform::MacOs, true, true), expected);
}

#[test]
fn macos_without_working_dir_leaves_out_the_development_tree() {
    let list = candidates(Platform::MacOs, true, false);
    assert_eq!(list.len(), 11);
    assert_eq!(list[0], bundled(Root::ExeDir, &["..", "Resources", "ghostscript", "bin", "gs"]));
    assert_eq!(list[1], bundled(Root::ExeDir, &["gs"]));
    assert!(list.iter().all(|candidate| !matches!(
        candidate,
        Candidate::Bundled { root: Root::WorkingDir, .. }
    )));
}

#[test]
fn macos_without_exe_dir_has_no_bundled_candidate() {
    assert_eq!(candidates(Platform::MacOs, false, true), vec![sidecar("gs"), system("gs")]);
    assert_eq!(candidates(Platform::MacOs, false, false), vec![sidecar("gs"), system("gs")]);
}

#[test]
fn windows_tries_bundle_then_three_commands() {
    let expected = vec![
        bundled(Root::ExeDir, &["gs.exe"]),
        bundled(Root::ExeDir, &["ghostscript", "bin", "gswin64c.exe"]),
        bundled(Root::ExeDir, &["ghostscript", "bin", "gswin32c.exe"]),
        system("gswin64c"),
        system("gswin32c"),
        system("gs"),
    ];
    assert_eq!(candidates(Platform::Windows, true, true), expected);
    assert_eq!(candidates(Platform::Windows, true, false), expected);
}

#[test]
fn windows_without_exe_dir_has_only_the_commands() {
    assert_eq!(
        candidates(Platform::Windows, false, true),
        vec![system("gswin64c"), system("gswin32c"), system("gs")]
    );
}

#[test]
fn other_platforms_try_sidecar_then_one_command() {
    for exe_dir_known in [false, true] {
        for working_dir_known in [false, true] {
            assert_eq!(
                candidates(Platform::Other, exe_dir_known, working_dir_known),
                vec![sidecar("gs"), system("gs")]
            );
        }
    }
}

#[test]
fn every_list_ends_with_the_bare_command() {
    for platform in [Platform::MacOs, Platform::Windows, Platform::Other] {
        let list = candidates(platform, true, true);
        assert_eq!(list.last(), Some(&system("gs")));
    }
}
