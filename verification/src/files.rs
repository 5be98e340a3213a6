//! What the caller found out about paths on disk, and the two commands that
//! answer from it: which paths exist, and which launch arguments name files
//! to open.

use vstd::prelude::*;

verus! {

/// What lies at a path at the time the caller looked.
#[derive(Clone, Copy, Debug, PartialEq, Eq, Structural)]
pub enum PathKind {
    /// Nothing, or nothing that could be examined.
    Missing,
    /// A regular file.
    File,
    /// Something else, such as a directory.
    Other,
}

/// A path together with what the caller found there.
#[derive(Clone, Debug, PartialEq, Eq)]
pub struct PathProbe {
    pub path: String,
    pub kind: PathKind,
}

/// The mathematical value of a [`PathProbe`].
#[verifier::ext_equal]
pub struct PathProbeModel {
    pub path: Seq<char>,
    pub kind: PathKind,
}

impl View for PathProbe {
    type V = PathProbeModel;

    open spec fn view(&self) -> PathProbeModel {
        PathProbeModel { path: self.path@, kind: self.kind }
    }
}

impl DeepView for PathProbe {
    type V = PathProbeModel;

    open spec fn deep_view(&self) -> PathProbeModel {
        self@
    }
}

impl PathProbeModel {
    /// Something lies at the path.
    pub open spec fn present(self) -> bool {
        self.kind != PathKind::Missing
    }

    /// A regular file lies at the path.
    pub open spec fn is_file(self) -> bool {
        self.kind == PathKind::File
    }
}

/// The paths among `probes` at which something lies, in their order.
pub open spec fn existing_paths(probes: Seq<PathProbeModel>) -> Seq<Seq<char>> {
    probes.filter_map(
        |probe: PathProbeModel|
            if probe.present() {
                Some(probe.path)
            } else {
                None
            },
    )
}

/// The paths among `probes` at which a regular file lies, in their order.
pub open spec fn file_paths(probes: Seq<PathProbeModel>) -> Seq<Seq<char>> {
    probes.filter_map(
        |probe: PathProbeModel|
            if probe.is_file() {
                Some(probe.path)
            } else {
                None
            },
    )
}

/// The files to open at launch: the launch arguments after the program's
/// name that name a regular file.
pub open spec fn startup_files(args: Seq<PathProbeModel>) -> Seq<Seq<char>> {
    if args.len() == 0 {
        Seq::empty()
    } else {
        file_paths(args.drop_first())
    }
}

/// Says for each path whether something lies there: one answer per probe,
/// in the order of the probes.
pub fn check_file_existence(probes: &Vec<PathProbe>) -> (out: Vec<bool>)
    ensures
        out.len() == probes.len(),
        forall|i: int| 0 <= i < probes.len() ==> out[i] == (#[trigger] probes[i])@.present(),
{
    let mut out: Vec<bool> = Vec::new();
    let mut i: usize = 0;
    while i < probes.len()
        invariant
            i <= probes.len(),
            out.len() == i,
            forall|k: int| 0 <= k < i ==> out[k] == (#[trigger] probes[k])@.present(),
        decreases probes.len() - i,
    {
        let found = match probes[i].kind {
            PathKind::Missing => false,
            _ => true,
        };
        out.push(found);
        i += 1;
    }
    out
}

/// Picks the files to open from the launch arguments: `args` holds every
/// argument, the program's name first, with what lies at it. The name is
/// left out, and of the others those that name a regular file are kept, in
/// their order.
pub fn collect_startup_file_paths(args: &Vec<PathProbe>) -> (out: Vec<String>)
    ensures
        out.deep_view() == startup_files(args.deep_view()),
{
    let mut out: Vec<String> = Vec::new();
    if args.len() == 0 {
        assert(out.deep_view() =~= Seq::empty());
        return out;
    }
    let ghost rest = args.deep_view().drop_first();
    let ghost keep = |probe: PathProbeModel|
        if probe.is_file() {
            Some(probe.path)
        } else {
            None
        };
    let mut i: usize = 1;
    assert(out.deep_view() =~= rest.take(0).filter_map(keep));
    while i < args.len()
        invariant
            1 <= i <= args.len(),
            rest == args.deep_view().drop_first(),
            keep == |probe: PathProbeModel|
                if probe.is_file() {
                    Some(probe.path)
                } else {
                    None
                },
            out.deep_view() == rest.take(i - 1).filter_map(keep),
        decreases args.len() - i,
    {
        proof {
            rest.lemma_filter_map_take_succ(keep, i - 1);
            assert(rest[i - 1] == args[i as int]@);
        }
        let ghost before = out.deep_view();
        match args[i].kind {
            PathKind::File => {
                out.push(args[i].path.clone());
                assert(out.deep_view() =~= before + seq![args[i as int]@.path]);
            },
            _ => {},
        }
        i += 1;
    }
    assert(rest.take(args.len() - 1) == rest);
    out
}

} // verus!
