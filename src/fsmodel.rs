use vstd::prelude::*;

verus! {

/// What a path holds, as far as the synchronization cares.
pub enum Entry {
    File(Seq<char>),
    Link(Seq<char>),
}

/// The paths that exist and what each holds.
pub type FsState = Map<Seq<char>, Entry>;

/// One filesystem operation, to be carried out in order by the caller.
#[derive(Clone, Debug)]
pub enum FsAction {
    /// Create the parent directories of the path.
    CreateParentDirs(String),
    /// Remove the path if it is a symbolic link.
    RemoveIfSymlink(String),
    /// Remove whatever file or link is at the path, if any.
    RemoveFile(String),
    /// Write the contents to the path, replacing what was there.
    WriteFile(String, String),
    /// Create a symbolic link at the first path pointing to the second.
    Symlink(String, String),
}

/// The effect of one action. Directories are not tracked. Writing through a
/// link writes its target, as a filesystem does.
pub open spec fn step(fs: FsState, a: FsAction) -> FsState {
    match a {
        FsAction::CreateParentDirs(_) => fs,
        FsAction::RemoveIfSymlink(p) => if fs.contains_key(p@) && fs[p@] is Link {
            fs.remove(p@)
        } else {
            fs
        },
        FsAction::RemoveFile(p) => fs.remove(p@),
        FsAction::WriteFile(p, c) => if fs.contains_key(p@) && fs[p@] is Link {
            fs.insert(fs[p@]->Link_0, Entry::File(c@))
        } else {
            fs.insert(p@, Entry::File(c@))
        },
        FsAction::Symlink(l, t) => if fs.contains_key(l@) {
            fs
        } else {
            fs.insert(l@, Entry::Link(t@))
        },
    }
}

/// The effect of a sequence of actions that all succeed.
pub open spec fn run(fs: FsState, actions: Seq<FsAction>) -> FsState
    decreases actions.len(),
{
    if actions.len() == 0 {
        fs
    } else {
        step(run(fs, actions.drop_last()), actions.last())
    }
}


/// The steps that write a stylesheet: parents first, then drop a link left by
/// a restore, then write the file.
pub fn write_steps(path: &str, content: &str) -> (r: Vec<FsAction>)
    ensures
        r@.len() == 3,
        r@[0] matches FsAction::CreateParentDirs(p) && p@ == path@,
        r@[1] matches FsAction::RemoveIfSymlink(p) && p@ == path@,
        r@[2] matches FsAction::WriteFile(p, c) && p@ == path@ && c@ == content@,
{
    let mut v: Vec<FsAction> = Vec::new();
    v.push(FsAction::CreateParentDirs(path.to_owned()));
    v.push(FsAction::RemoveIfSymlink(path.to_owned()));
    v.push(FsAction::WriteFile(path.to_owned(), content.to_owned()));
    v
}

pub(crate) proof fn lemma_run_three(fs: FsState, acts: Seq<FsAction>)
    requires
        acts.len() == 3,
    ensures
        run(fs, acts) == step(step(step(fs, acts[0]), acts[1]), acts[2]),
{
    let d1 = acts.drop_last();
    let d2 = d1.drop_last();
    let d3 = d2.drop_last();
    assert(d3.len() == 0);
    assert(run(fs, d3) == fs);
    assert(run(fs, d2) == step(fs, acts[0]));
    assert(run(fs, d1) == step(run(fs, d2), acts[1]));
    assert(run(fs, acts) == step(run(fs, d1), acts[2]));
}

/// After the steps of a write, the path is a regular file with the new
/// contents, whether or not it was a link before.
pub proof fn lemma_write_leaves_regular_file(fs: FsState, acts: Seq<FsAction>, path: Seq<char>, content: Seq<char>)
    requires
        acts.len() == 3,
        acts[0] matches FsAction::CreateParentDirs(p) && p@ == path,
        acts[1] matches FsAction::RemoveIfSymlink(p) && p@ == path,
        acts[2] matches FsAction::WriteFile(p, c) && p@ == path && c@ == content,
    ensures
        run(fs, acts).contains_key(path),
        run(fs, acts)[path] == Entry::File(content),
{
    lemma_run_three(fs, acts);
}

} // verus!
