use pdfresizer::engine::{Candidate, Platform, Root};
use pdfresizer::files::{PathKind, PathProbe};
use pdfresizer::support::{support_policy, SupportEntry, SupportPolicy};

fn probe(path: &str, kind: PathKind) -> PathProbe {
    PathProbe { path: path.to_string(), kind }
}

fn bundled() -> Candidate {
    Candidate::Bundled { root: Root::ExeDir, parts: vec!["gs".to_string()] }
}

fn policy() -> SupportPolicy {
    support_policy(Platform::MacOs, &bundled()).expect("a bundled engine on macOS has a policy")
}

#[test]
fn bundled_engine_on_macos_reads_gs_lib() {
    let expected = SupportPolicy {
        variable: "GS_LIB".to_string(),
        levels_up: 2,
        directory: vec!["share".to_string(), "ghostscript".to_string()],
        subdirectories: vec!["lib".to_string(), "Resource".to_string()],
        separator: ":".to_string(),
    };
    assert_eq!(support_policy(Platform::MacOs, &bundled()), Some(expected));
}

#[test]
fn only_bundled_engines_on_macos_have_a_policy() {
    let sidecar = Candidate::Sidecar { name: "gs".to_string() };
    let system = Candidate::System { command: "gs".to_string() };
    assert_eq!(support_policy(Platform::MacOs, &sidecar), None);
    assert_eq!(support_policy(Platform::MacOs, &system), None);
    assert_eq!(support_policy(Platform::Windows, &bundled()), None);
    assert_eq!(support_policy(Platform::Other, &bundled()), None);
}

#[test]
fn value_lists_existing_directories_in_order() {
    let entries = vec![
        SupportEntry {
            is_dir: true,
            children: vec![
                probe("/b/share/ghostscript/10.02.1/lib", PathKind::Other),
                probe("/b/share/ghostscript/10.02.1/Resource", PathKind::Other),
            ],
        },
        SupportEntry {
            is_dir: true,
            children: vec![
                probe("/b/share/ghostscript/fonts/lib", PathKind::Missing),
                probe("/b/share/ghostscript/fonts/Resource", PathKind::Other),
            ],
        },
    ];
    assert_eq!(
        policy().value(&entries),
        Some(
            "/b/share/ghostscript/10.02.1/lib:/b/share/ghostscript/10.02.1/Resource:/b/share/ghostscript/fonts/Resource"
                .to_string()
        )
    );
}

#[test]
fn value_passes_over_entries_that_are_no_directories() {
    let entries = vec![
        SupportEntry {
            is_dir: false,
            children: vec![probe("/b/share/ghostscript/README/lib", PathKind::Other)],
        },
        SupportEntry {
            is_dir: true,
            children: vec![probe("/b/share/ghostscript/9.56/lib", PathKind::File)],
        },
    ];
    assert_eq!(policy().value(&entries), Some("/b/share/ghostscript/9.56/lib".to_string()));
}

#[test]
fn value_is_absent_when_nothing_is_found() {
    assert_eq!(policy().value(&Vec::new()), None);
    let entries = vec![
        SupportEntry { is_dir: true, children: vec![probe("/x/lib", PathKind::Missing)] },
        SupportEntry { is_dir: true, children: Vec::new() },
        SupportEntry { is_dir: false, children: vec![probe("/y/lib", PathKind::Other)] },
    ];
    assert_eq!(policy().value(&entries), None);
}

#[test]
fn value_uses_the_separator_of_the_policy() {
    let mut custom = policy();
    custom.separator = ";".to_string();
    let entries = vec![SupportEntry {
        is_dir: true,
        children: vec![probe("a", PathKind::Other), probe("b", PathKind::Other)],
    }];
    assert_eq!(custom.value(&entries), Some("a;b".to_string()));
}
