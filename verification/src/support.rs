//! The support files of a bundled engine. An engine shipped inside a macOS
//! application finds its libraries and resources through an environment
//! variable that lists their directories. The caller looks at the disk; this
//! module says where to look and makes the value from what was found.

use vstd::prelude::*;
use crate::engine::{Candidate, CandidateModel, Platform};
use crate::files::{existing_paths, PathKind, PathProbe, PathProbeModel};
use crate::text::{join, joined, owned};

verus! {

/// Where the support files of a bundled engine are looked for and how they
/// are handed to the engine.
#[derive(Clone, Debug, PartialEq, Eq)]
pub struct SupportPolicy {
    /// The environment variable that the engine reads.
    pub variable: String,
    /// How many directories above the engine's file its installation starts.
    pub levels_up: usize,
    /// The path components, below the start of the installation, of the
    /// directory that holds one directory per engine version.
    pub directory: Vec<String>,
    /// The names, below a version's directory, of the directories to list.
    pub subdirectories: Vec<String>,
    /// What separates the listed directories in the variable's value.
    pub separator: String,
}

/// The mathematical value of a [`SupportPolicy`].
#[verifier::ext_equal]
pub struct SupportPolicyModel {
    pub variable: Seq<char>,
    pub levels_up: int,
    pub directory: Seq<Seq<char>>,
    pub subdirectories: Seq<Seq<char>>,
    pub separator: Seq<char>,
}

impl View for SupportPolicy {
    type V = SupportPolicyModel;

    open spec fn view(&self) -> SupportPolicyModel {
        SupportPolicyModel {
            variable: self.variable@,
            levels_up: self.levels_up as int,
            directory: self.directory.deep_view(),
            subdirectories: self.subdirectories.deep_view(),
            separator: self.separator@,
        }
    }
}

impl DeepView for SupportPolicy {
    type V = SupportPolicyModel;

    open spec fn deep_view(&self) -> SupportPolicyModel {
        self@
    }
}

/// One entry of the directory that holds the engine versions, with what the
/// caller found at each of the policy's subdirectories below it, in the
/// policy's order.
#[derive(Clone, Debug, PartialEq, Eq)]
pub struct SupportEntry {
    /// Whether the entry is a directory.
    pub is_dir: bool,
    pub children: Vec<PathProbe>,
}

/// The mathematical value of a [`SupportEntry`].
#[verifier::ext_equal]
pub struct SupportEntryModel {
    pub is_dir: bool,
    pub children: Seq<PathProbeModel>,
}

impl View for SupportEntry {
    type V = SupportEntryModel;

    open spec fn view(&self) -> SupportEntryModel {
        SupportEntryModel { is_dir: self.is_dir, children: self.children.deep_view() }
    }
}

impl DeepView for SupportEntry {
    type V = SupportEntryModel;

    open spec fn deep_view(&self) -> SupportEntryModel {
        self@
    }
}

/// The policy of the engine bundled with a macOS application: the variable
/// `GS_LIB` lists, separated by colons, the directories `lib` and `Resource`
/// of each version below `share/ghostscript`, two levels above the engine.
pub open spec fn bundle_policy() -> SupportPolicyModel {
    SupportPolicyModel {
        variable: "GS_LIB"@,
        levels_up: 2,
        directory: seq!["share"@, "ghostscript"@],
        subdirectories: seq!["lib"@, "Resource"@],
        separator: ":"@,
    }
}

/// The policy that holds for `candidate` on `platform`: only a bundled
/// engine on macOS has one.
pub open spec fn policy_for(platform: Platform, candidate: CandidateModel) -> Option<
    SupportPolicyModel,
> {
    if platform == Platform::MacOs && candidate is Bundled {
        Some(bundle_policy())
    } else {
        None
    }
}

/// The directories that one entry contributes: those of its subdirectories
/// that exist, if the entry is a directory itself.
pub open spec fn entry_paths(entry: SupportEntryModel) -> Seq<Seq<char>> {
    if entry.is_dir {
        existing_paths(entry.children)
    } else {
        Seq::empty()
    }
}

/// The directories to list in the variable, in the order of the entries.
pub open spec fn support_paths(entries: Seq<SupportEntryModel>) -> Seq<Seq<char>> {
    entries.flat_map(|entry: SupportEntryModel| entry_paths(entry))
}

/// The value of the variable; none when there is no directory to list.
pub open spec fn support_value(entries: Seq<SupportEntryModel>, separator: Seq<char>) -> Option<
    Seq<char>,
> {
    let paths = support_paths(entries);
    if paths.len() == 0 {
        None
    } else {
        Some(joined(paths, separator))
    }
}

/// Says where the support files of `candidate` are looked for on `platform`,
/// if it has any.
pub fn support_policy(platform: Platform, candidate: &Candidate) -> (out: Option<SupportPolicy>)
    ensures
        out.deep_view() == policy_for(platform, candidate@),
{
    match (platform, candidate) {
        (Platform::MacOs, Candidate::Bundled { .. }) => {
            let policy = SupportPolicy {
                variable: String::from_str("GS_LIB"),
                levels_up: 2,
                directory: owned(vec!["share", "ghostscript"]),
                subdirectories: owned(vec!["lib", "Resource"]),
                separator: String::from_str(":"),
            };
            assert(policy@ =~~= bundle_policy());
            Some(policy)
        },
        _ => None,
    }
}

/// Appends to `paths` the paths among `probes` at which something lies.
fn push_existing(paths: &mut Vec<String>, probes: &Vec<PathProbe>)
    ensures
        final(paths).deep_view() == old(paths).deep_view() + existing_paths(probes.deep_view()),
{
    let ghost start = paths.deep_view();
    let ghost all = probes.deep_view();
    let ghost keep = |probe: PathProbeModel|
        if probe.present() {
            Some(probe.path)
        } else {
            None
        };
    let mut i: usize = 0;
    assert(paths.deep_view() =~= start + all.take(0).filter_map(keep));
    while i < probes.len()
        invariant
            i <= probes.len(),
            all == probes.deep_view(),
            keep == |probe: PathProbeModel|
                if probe.present() {
                    Some(probe.path)
                } else {
                    None
                },
            paths.deep_view() == start + all.take(i as int).filter_map(keep),
        decreases probes.len() - i,
    {
        proof {
            all.lemma_filter_map_take_succ(keep, i as int);
        }
        let ghost before = paths.deep_view();
        match probes[i].kind {
            PathKind::Missing => {},
            _ => {
                paths.push(probes[i].path.clone());
                assert(paths.deep_view() =~= before + seq![probes[i as int]@.path]);
            },
        }
        i += 1;
    }
    assert(all.take(probes.len() as int) == all);
}

impl SupportPolicy {
    /// Makes the value of the variable from the entries that the caller
    /// found in the versions' directory; there is none to set when no
    /// directory is to be listed.
    pub fn value(&self, entries: &Vec<SupportEntry>) -> (out: Option<String>)
        ensures
            out.deep_view() == support_value(entries.deep_view(), self@.separator),
    {
        let ghost all = entries.deep_view();
        let ghost each = |entry: SupportEntryModel| entry_paths(entry);
        let mut paths: Vec<String> = Vec::new();
        let mut i: usize = 0;
        assert(paths.deep_view() =~= all.take(0).flat_map(each));
        while i < entries.len()
            invariant
                i <= entries.len(),
                all == entries.deep_view(),
                each == |entry: SupportEntryModel| entry_paths(entry),
                paths.deep_view() == all.take(i as int).flat_map(each),
            decreases entries.len() - i,
        {
            proof {
                all.lemma_flat_map_take_append(each, i as int);
            }
            if entries[i].is_dir {
                push_existing(&mut paths, &entries[i].children);
            }
            i += 1;
        }
        assert(all.take(entries.len() as int) == all);
        if paths.len() == 0 {
            None
        } else {
            Some(join(&paths, self.separator.as_str()))
        }
    }
}

} // verus!
