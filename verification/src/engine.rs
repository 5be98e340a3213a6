//! Where a Ghostscript engine may be found: the platforms, the ordered list
//! of places to try on each of them, and what one attempt can report.

use vstd::prelude::*;
use crate::text::owned;

verus! {

/// The family of operating systems the application runs on.
#[derive(Clone, Copy, Debug, PartialEq, Eq, Structural)]
pub enum Platform {
    MacOs,
    Windows,
    Other,
}

/// A directory, known only to the caller, from which a bundled engine is
/// looked up.
#[derive(Clone, Copy, Debug, PartialEq, Eq, Structural)]
pub enum Root {
    /// The directory that holds the application's own executable.
    ExeDir,
    /// The directory the application was started in.
    WorkingDir,
}

/// One place where an engine may be found.
#[derive(Clone, Debug, PartialEq, Eq)]
pub enum Candidate {
    /// A file shipped with the application: `parts` are the path components
    /// below `root`. It is tried only if the file exists.
    Bundled { root: Root, parts: Vec<String> },
    /// A helper deployed beside the application and resolved by name through
    /// the deployment framework. It is tried only if it resolves.
    Sidecar { name: String },
    /// A command looked up on the execution search path.
    System { command: String },
}

/// The mathematical value of a [`Candidate`].
#[verifier::ext_equal]
pub enum CandidateModel {
    Bundled { root: Root, parts: Seq<Seq<char>> },
    Sidecar { name: Seq<char> },
    System { command: Seq<char> },
}

impl View for Candidate {
    type V = CandidateModel;

    open spec fn view(&self) -> CandidateModel {
        match self {
            Candidate::Bundled { root, parts } => CandidateModel::Bundled {
                root: *root,
                parts: parts.deep_view(),
            },
            Candidate::Sidecar { name } => CandidateModel::Sidecar { name: name@ },
            Candidate::System { command } => CandidateModel::System { command: command@ },
        }
    }
}

impl DeepView for Candidate {
    type V = CandidateModel;

    open spec fn deep_view(&self) -> CandidateModel {
        self@
    }
}

/// A bundled file directly below the executable's directory.
pub open spec fn beside_exe(file: Seq<char>) -> CandidateModel {
    CandidateModel::Bundled { root: Root::ExeDir, parts: seq![file] }
}

/// A bundled file in the resource directory of an application bundle, which
/// lies at `../Resources` below the executable's directory.
pub open spec fn in_resources(file: Seq<char>) -> CandidateModel {
    CandidateModel::Bundled { root: Root::ExeDir, parts: seq![".."@, "Resources"@, file] }
}

/// The bundled candidates of `platform`, in the order in which they are
/// tried. None is considered while the executable's directory is unknown,
/// and the one below the working directory only while that is known.
pub open spec fn bundled_candidates(
    platform: Platform,
    exe_dir_known: bool,
    working_dir_known: bool,
) -> Seq<CandidateModel> {
    if !exe_dir_known {
        Seq::empty()
    } else {
        match platform {
            Platform::MacOs => {
                seq![
                    CandidateModel::Bundled {
                        root: Root::ExeDir,
                        parts: seq![".."@, "Resources"@, "ghostscript"@, "bin"@, "gs"@],
                    },
                ] + (if working_dir_known {
                    seq![
                        CandidateModel::Bundled {
                            root: Root::WorkingDir,
                            parts: seq!["src-tauri"@, "bin"@, "ghostscript"@, "bin"@, "gs"@],
                        },
                    ]
                } else {
                    Seq::empty()
                }) + seq![
                    beside_exe("gs"@),
                    beside_exe("gs-aarch64-apple-darwin"@),
                    beside_exe("gs-x86_64-apple-darwin"@),
                    beside_exe("gs-universal-apple-darwin"@),
                    in_resources("gs"@),
                    in_resources("gs-aarch64-apple-darwin"@),
                    in_resources("gs-x86_64-apple-darwin"@),
                    in_resources("gs-universal-apple-darwin"@),
                ]
            },
            Platform::Windows => seq![
                beside_exe("gs.exe"@),
                CandidateModel::Bundled {
                    root: Root::ExeDir,
                    parts: seq!["ghostscript"@, "bin"@, "gswin64c.exe"@],
                },
                CandidateModel::Bundled {
                    root: Root::ExeDir,
                    parts: seq!["ghostscript"@, "bin"@, "gswin32c.exe"@],
                },
            ],
            Platform::Other => Seq::empty(),
        }
    }
}

/// The sidecar candidates of `platform`.
pub open spec fn sidecar_candidates(platform: Platform) -> Seq<CandidateModel> {
    match platform {
        Platform::Windows => Seq::empty(),
        _ => seq![CandidateModel::Sidecar { name: "gs"@ }],
    }
}

/// The commands tried on the search path on `platform`, in order.
pub open spec fn system_candidates(platform: Platform) -> Seq<CandidateModel> {
    match platform {
        Platform::Windows => seq![
            CandidateModel::System { command: "gswin64c"@ },
            CandidateModel::System { command: "gswin32c"@ },
            CandidateModel::System { command: "gs"@ },
        ],
        _ => seq![CandidateModel::System { command: "gs"@ }],
    }
}

/// Every candidate of `platform` in priority order: the bundled ones first,
/// then the sidecar, then the commands on the search path.
pub open spec fn candidate_list(
    platform: Platform,
    exe_dir_known: bool,
    working_dir_known: bool,
) -> Seq<CandidateModel> {
    bundled_candidates(platform, exe_dir_known, working_dir_known) + sidecar_candidates(platform)
        + system_candidates(platform)
}

/// Builds a bundled candidate from its components.
fn bundled(root: Root, parts: Vec<&str>) -> (out: Candidate)
    ensures
        out@ == (CandidateModel::Bundled { root, parts: parts.deep_view() }),
{
    Candidate::Bundled { root, parts: owned(parts) }
}

/// Builds a candidate run from the search path.
fn system(command: &str) -> (out: Candidate)
    ensures
        out@ == (CandidateModel::System { command: command@ }),
{
    Candidate::System { command: String::from_str(command) }
}

/// Lists the places to try on `platform`, in the order in which they are to
/// be tried. `exe_dir_known` and `working_dir_known` say whether the caller
/// could find out the directory of its executable and its working directory.
pub fn candidates(platform: Platform, exe_dir_known: bool, working_dir_known: bool) -> (out: Vec<
    Candidate,
>)
    ensures
        out.deep_view() == candidate_list(platform, exe_dir_known, working_dir_known),
{
    let mut out: Vec<Candidate> = Vec::new();
    if exe_dir_known {
        match platform {
            Platform::MacOs => {
                out.push(bundled(Root::ExeDir, vec!["..", "Resources", "ghostscript", "bin", "gs"]));
                if working_dir_known {
                    out.push(
                        bundled(
                            Root::WorkingDir,
                            vec!["src-tauri", "bin", "ghostscript", "bin", "gs"],
                        ),
                    );
                }
                out.push(bundled(Root::ExeDir, vec!["gs"]));
                out.push(bundled(Root::ExeDir, vec!["gs-aarch64-apple-darwin"]));
                out.push(bundled(Root::ExeDir, vec!["gs-x86_64-apple-darwin"]));
                out.push(bundled(Root::ExeDir, vec!["gs-universal-apple-darwin"]));
                out.push(bundled(Root::ExeDir, vec!["..", "Resources", "gs"]));
                out.push(bundled(Root::ExeDir, vec!["..", "Resources", "gs-aarch64-apple-darwin"]));
                out.push(bundled(Root::ExeDir, vec!["..", "Resources", "gs-x86_64-apple-darwin"]));
                out.push(
                    bundled(Root::ExeDir, vec!["..", "Resources", "gs-universal-apple-darwin"]),
                );
            },
            Platform::Windows => {
                out.push(bundled(Root::ExeDir, vec!["gs.exe"]));
                out.push(bundled(Root::ExeDir, vec!["ghostscript", "bin", "gswin64c.exe"]));
                out.push(bundled(Root::ExeDir, vec!["ghostscript", "bin", "gswin32c.exe"]));
            },
            Platform::Other => {},
        }
    }
    match platform {
        Platform::Windows => {
            out.push(system("gswin64c"));
            out.push(system("gswin32c"));
        },
        _ => {
            out.push(Candidate::Sidecar { name: String::from_str("gs") });
        },
    }
    out.push(system("gs"));
    assert(out.deep_view() =~~= candidate_list(platform, exe_dir_known, working_dir_known));
    out
}

} // verus!
