//! The files named at launch. They wait in a queue until the frontend is
//! ready to ask for them; asking empties the queue.

use vstd::prelude::*;

verus! {

/// The label of the window that is told at once about files named at
/// launch, if it is there.
pub const MAIN_WINDOW: &'static str = "main";

/// The name of the event that tells a window about files named at launch.
pub const FILES_OPENED_EVENT: &'static str = "external-files-opened";

/// The paths that wait for the frontend, oldest first.
#[derive(Debug)]
pub struct PendingOpenPaths {
    paths: Vec<String>,
}

impl View for PendingOpenPaths {
    type V = Seq<Seq<char>>;

    closed spec fn view(&self) -> Seq<Seq<char>> {
        self.paths.deep_view()
    }
}

/// What a launch with the files `paths` does to `queue`: the files are put
/// behind those that wait already.
pub open spec fn after_launch(queue: Seq<Seq<char>>, paths: Seq<Seq<char>>) -> Seq<Seq<char>> {
    queue + paths
}

/// What a window that listens is told at a launch with the files `paths`:
/// all of them, or nothing when there is none.
pub open spec fn announced(paths: Seq<Seq<char>>) -> Option<Seq<Seq<char>>> {
    if paths.len() == 0 {
        None
    } else {
        Some(paths)
    }
}

/// What the frontend gets when it asks for the paths in `queue`: all of
/// them, in their order.
pub open spec fn taken(queue: Seq<Seq<char>>) -> Seq<Seq<char>> {
    queue
}

/// What is left of `queue` once the frontend has asked: nothing.
pub open spec fn after_take(queue: Seq<Seq<char>>) -> Seq<Seq<char>> {
    Seq::empty()
}

/// Copies `paths`.
fn copy_of(paths: &Vec<String>) -> (out: Vec<String>)
    ensures
        out.deep_view() == paths.deep_view(),
{
    let mut out: Vec<String> = Vec::new();
    let mut i: usize = 0;
    while i < paths.len()
        invariant
            i <= paths.len(),
            out.len() == i,
            forall|k: int| 0 <= k < i ==> out[k]@ == paths[k]@,
        decreases paths.len() - i,
    {
        out.push(paths[i].clone());
        i += 1;
    }
    assert(out.deep_view() =~= paths.deep_view());
    out
}

impl PendingOpenPaths {
    /// A queue in which nothing waits.
    pub fn new() -> (out: PendingOpenPaths)
        ensures
            out@ == Seq::<Seq<char>>::empty(),
    {
        let out = PendingOpenPaths { paths: Vec::new() };
        assert(out.paths.deep_view() =~= Seq::empty());
        out
    }

    /// How many paths wait.
    pub fn len(&self) -> (out: usize)
        ensures
            out == self@.len(),
    {
        self.paths.len()
    }

    /// Whether nothing waits.
    pub fn is_empty(&self) -> (out: bool)
        ensures
            out == (self@.len() == 0),
    {
        self.paths.len() == 0
    }

    /// Takes in the files named at a launch: they are put behind those that
    /// wait already. Returns what a window that listens is to be told at
    /// once: the same files, or nothing when there is none.
    pub fn launch(&mut self, paths: Vec<String>) -> (out: Option<Vec<String>>)
        ensures
            final(self)@ == after_launch(old(self)@, paths.deep_view()),
            out.deep_view() == announced(paths.deep_view()),
    {
        if paths.len() == 0 {
            assert(self.paths.deep_view() =~= self.paths.deep_view() + paths.deep_view());
            return None;
        }
        let told = copy_of(&paths);
        let ghost before = self.paths.deep_view();
        let ghost added = paths.deep_view();
        let mut paths = paths;
        self.paths.append(&mut paths);
        assert(self.paths.deep_view() =~= before + added);
        Some(told)
    }

    /// Hands out the paths that wait, oldest first, and leaves the queue
    /// empty.
    pub fn take(&mut self) -> (out: Vec<String>)
        ensures
            out.deep_view() == taken(old(self)@),
            final(self)@ == after_take(old(self)@),
    {
        let mut out: Vec<String> = Vec::new();
        std::mem::swap(&mut self.paths, &mut out);
        assert(self.paths.deep_view() =~= Seq::empty());
        out
    }
}

impl Default for PendingOpenPaths {
    fn default() -> (out: PendingOpenPaths)
        ensures
            out@ == Seq::<Seq<char>>::empty(),
    {
        PendingOpenPaths::new()
    }
}

/// Asking twice gives the paths once: whatever waits, the frontend gets all
/// of it the first time it asks, and nothing when it asks again with no
/// launch in between.
pub proof fn lemma_second_take_is_empty(queue: Seq<Seq<char>>)
    ensures
        taken(queue) == queue,
        taken(after_take(queue)) == Seq::<Seq<char>>::empty(),
{
}

/// Nothing is lost between launch and asking: the files of a launch are
/// what the frontend gets when it asks next, behind those that waited
/// before.
pub proof fn lemma_launch_then_take(queue: Seq<Seq<char>>, paths: Seq<Seq<char>>)
    ensures
        taken(after_launch(queue, paths)) == queue + paths,
{
}

} // verus!
