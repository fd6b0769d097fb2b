use vstd::prelude::*;

use crate::fsmodel::{run, step, Entry, FsAction, FsState};

verus! {

/// The native stylesheet of a dialect under a configuration directory.
pub open spec fn native_path(config_dir: Seq<char>, modern: bool) -> Seq<char> {
    config_dir + if modern {
        "/gtk-4.0/gtk.css"@
    } else {
        "/gtk-3.0/gtk.css"@
    }
}

/// The desktop's own pre-rendered stylesheet for a mode.
pub open spec fn source_css_path(config_dir: Seq<char>, is_dark: bool) -> Seq<char> {
    config_dir + "/gtk-4.0/cosmic/"@ + if is_dark {
        "dark.css"@
    } else {
        "light.css"@
    }
}

/// Path of the native stylesheet of a dialect.
pub fn native_target(config_dir: &str, modern: bool) -> (r: String)
    ensures
        r@ == native_path(config_dir@, modern),
{
    let mut s = config_dir.to_owned();
    if modern {
        s.append("/gtk-4.0/gtk.css");
    } else {
        s.append("/gtk-3.0/gtk.css");
    }
    s
}

/// Path of the desktop's pre-rendered stylesheet for a mode.
pub fn source_css(config_dir: &str, is_dark: bool) -> (r: String)
    ensures
        r@ == source_css_path(config_dir@, is_dark),
{
    let mut s = config_dir.to_owned();
    s.append("/gtk-4.0/cosmic/");
    if is_dark {
        s.append("dark.css");
    } else {
        s.append("light.css");
    }
    s
}

pub open spec fn missing_source_message(config_dir: Seq<char>, is_dark: bool) -> Seq<char> {
    "COSMIC CSS not found at "@ + source_css_path(config_dir, is_dark)
}

pub open spec fn removes(a: FsAction, path: Seq<char>) -> bool {
    a matches FsAction::RemoveFile(p) && p@ == path
}

/// The shape of a restore: both native targets replaced by links to the
/// source, then each sandbox stylesheet removed.
pub open spec fn is_restore_plan(
    acts: Seq<FsAction>,
    config_dir: Seq<char>,
    is_dark: bool,
    sandbox_files: Seq<String>,
) -> bool {
    &&& acts.len() == 4 + sandbox_files.len()
    &&& acts[0] matches FsAction::RemoveFile(p) && p@ == native_path(config_dir, true)
    &&& acts[1] matches FsAction::Symlink(l, t) && l@ == native_path(config_dir, true)
        && t@ == source_css_path(config_dir, is_dark)
    &&& acts[2] matches FsAction::RemoveFile(p) && p@ == native_path(config_dir, false)
    &&& acts[3] matches FsAction::Symlink(l, t) && l@ == native_path(config_dir, false)
        && t@ == source_css_path(config_dir, is_dark)
    &&& forall|j: int|
        4 <= j < acts.len() ==> removes(#[trigger] acts[j], sandbox_files[j - 4]@)
}

/// Plans a restore. `source_exists` tells whether the desktop has rendered its
/// stylesheet for the mode; `sandbox_files` are the sandbox stylesheets that
/// exist. Without the source there is an error and nothing to do.
pub fn restore_cosmic_symlinks(
    config_dir: &str,
    is_dark: bool,
    source_exists: bool,
    sandbox_files: &Vec<String>,
) -> (r: Result<Vec<FsAction>, String>)
    ensures
        r is Err <==> !source_exists,
        r matches Err(e) ==> e@ == missing_source_message(config_dir@, is_dark),
        r matches Ok(acts) ==> is_restore_plan(acts@, config_dir@, is_dark, sandbox_files@),
{
    let target = source_css(config_dir, is_dark);
    if !source_exists {
        let mut e = String::new();
        e.append("COSMIC CSS not found at ");
        e.append(target.as_str());
        return Err(e);
    }
    let mut acts: Vec<FsAction> = Vec::new();
    acts.push(FsAction::RemoveFile(native_target(config_dir, true)));
    acts.push(FsAction::Symlink(native_target(config_dir, true), target.clone()));
    acts.push(FsAction::RemoveFile(native_target(config_dir, false)));
    acts.push(FsAction::Symlink(native_target(config_dir, false), target.clone()));
    let mut i: usize = 0;
    while i < sandbox_files.len()
        invariant
            i <= sandbox_files@.len(),
            acts@.len() == 4 + i,
            target@ == source_css_path(config_dir@, is_dark),
            acts@[0] matches FsAction::RemoveFile(p) && p@ == native_path(config_dir@, true),
            acts@[1] matches FsAction::Symlink(l, t) && l@ == native_path(config_dir@, true)
                && t@ == source_css_path(config_dir@, is_dark),
            acts@[2] matches FsAction::RemoveFile(p) && p@ == native_path(config_dir@, false),
            acts@[3] matches FsAction::Symlink(l, t) && l@ == native_path(config_dir@, false)
                && t@ == source_css_path(config_dir@, is_dark),
            forall|j: int|
                4 <= j < acts@.len() ==> removes(#[trigger] acts@[j], sandbox_files@[j - 4]@),
        decreases sandbox_files@.len() - i,
    {
        acts.push(FsAction::RemoveFile(sandbox_files[i].clone()));
        i = i + 1;
    }
    Ok(acts)
}

/// The summary of a restore that touched `n` paths.
pub fn restored_message(n: usize) -> (r: String)
    ensures
        r@ == "Restored "@ + crate::color::dec_digits(n as nat) + " files"@,
{
    let mut s = String::new();
    s.append("Restored ");
    crate::color::push_decimal(&mut s, n as u64);
    s.append(" files");
    s
}

/// A plan runs as its parts one after the other.
pub proof fn lemma_run_append(fs: FsState, a: Seq<FsAction>, b: Seq<FsAction>)
    ensures
        run(fs, a + b) == run(run(fs, a), b),
    decreases b.len(),
{
    if b.len() == 0 {
        assert(a + b =~= a);
    } else {
        assert((a + b).drop_last() =~= a + b.drop_last());
        lemma_run_append(fs, a, b.drop_last());
    }
}

proof fn lemma_native_paths_differ(config_dir: Seq<char>)
    ensures
        native_path(config_dir, true) != native_path(config_dir, false),
{
    reveal_strlit("/gtk-4.0/gtk.css");
    reveal_strlit("/gtk-3.0/gtk.css");
    let k = config_dir.len() + 5;
    assert(native_path(config_dir, true)[k as int] == '4');
    assert(native_path(config_dir, false)[k as int] == '3');
}

/// Removals of other paths leave a path as it was.
proof fn lemma_removals_keep(fs: FsState, acts: Seq<FsAction>, files: Seq<String>, path: Seq<char>)
    requires
        acts.len() == files.len(),
        forall|j: int| 0 <= j < acts.len() ==> removes(#[trigger] acts[j], files[j]@),
        forall|j: int| 0 <= j < files.len() ==> (#[trigger] files[j])@ != path,
    ensures
        run(fs, acts).contains_key(path) == fs.contains_key(path),
        fs.contains_key(path) ==> run(fs, acts)[path] == fs[path],
    decreases acts.len(),
{
    if acts.len() > 0 {
        let n = acts.len() - 1;
        assert(removes(acts[n], files[n]@));
        assert(files[n]@ != path);
        lemma_removals_keep(fs, acts.drop_last(), files.drop_last(), path);
    }
}

/// After the steps of a write to one path, another path is as it was.
proof fn lemma_write_keeps_other(fs: FsState, acts: Seq<FsAction>, path: Seq<char>, other: Seq<char>)
    requires
        acts.len() == 3,
        acts[0] matches FsAction::CreateParentDirs(p) && p@ == path,
        acts[1] matches FsAction::RemoveIfSymlink(p) && p@ == path,
        acts[2] matches FsAction::WriteFile(p, c) && p@ == path,
        other != path,
    ensures
        run(fs, acts).contains_key(other) == fs.contains_key(other),
        fs.contains_key(other) ==> run(fs, acts)[other] == fs[other],
{
    crate::fsmodel::lemma_run_three(fs, acts);
}

/// A synchronization after a restore leaves both native targets regular
/// files holding the new stylesheets, with no link left over.
pub proof fn lemma_restore_then_sync(
    fs: FsState,
    restore_acts: Seq<FsAction>,
    w4: Seq<FsAction>,
    w3: Seq<FsAction>,
    config_dir: Seq<char>,
    c4: Seq<char>,
    c3: Seq<char>,
)
    requires
        w4.len() == 3,
        w4[0] matches FsAction::CreateParentDirs(p) && p@ == native_path(config_dir, true),
        w4[1] matches FsAction::RemoveIfSymlink(p) && p@ == native_path(config_dir, true),
        w4[2] matches FsAction::WriteFile(p, c) && p@ == native_path(config_dir, true) && c@ == c4,
        w3.len() == 3,
        w3[0] matches FsAction::CreateParentDirs(p) && p@ == native_path(config_dir, false),
        w3[1] matches FsAction::RemoveIfSymlink(p) && p@ == native_path(config_dir, false),
        w3[2] matches FsAction::WriteFile(p, c) && p@ == native_path(config_dir, false) && c@ == c3,
    ensures
        ({
            let after = run(run(run(fs, restore_acts), w4), w3);
            &&& after.contains_key(native_path(config_dir, true))
            &&& after[native_path(config_dir, true)] == Entry::File(c4)
            &&& after.contains_key(native_path(config_dir, false))
            &&& after[native_path(config_dir, false)] == Entry::File(c3)
        }),
{
    let fs1 = run(fs, restore_acts);
    lemma_native_paths_differ(config_dir);
    crate::fsmodel::lemma_write_leaves_regular_file(fs1, w4, native_path(config_dir, true), c4);
    let fs2 = run(fs1, w4);
    crate::fsmodel::lemma_write_leaves_regular_file(fs2, w3, native_path(config_dir, false), c3);
    lemma_write_keeps_other(fs2, w3, native_path(config_dir, false), native_path(config_dir, true));
}

/// A restore, whatever came before it, leaves both native targets links to
/// the desktop's pre-rendered stylesheet, provided no sandbox stylesheet is a
/// native target.
pub proof fn lemma_sync_then_restore(
    fs: FsState,
    acts: Seq<FsAction>,
    config_dir: Seq<char>,
    is_dark: bool,
    sandbox_files: Seq<String>,
)
    requires
        is_restore_plan(acts, config_dir, is_dark, sandbox_files),
        forall|j: int|
            0 <= j < sandbox_files.len() ==> (#[trigger] sandbox_files[j])@ != native_path(
                config_dir,
                true,
            ) && sandbox_files[j]@ != native_path(config_dir, false),
    ensures
        ({
            let after = run(fs, acts);
            &&& after.contains_key(native_path(config_dir, true))
            &&& after[native_path(config_dir, true)] == Entry::Link(
                source_css_path(config_dir, is_dark),
            )
            &&& after.contains_key(native_path(config_dir, false))
            &&& after[native_path(config_dir, false)] == Entry::Link(
                source_css_path(config_dir, is_dark),
            )
        }),
{
    lemma_native_paths_differ(config_dir);
    let head = acts.subrange(0, 4);
    let tail = acts.subrange(4, acts.len() as int);
    assert(acts =~= head + tail);
    lemma_run_append(fs, head, tail);
    let h1 = head.subrange(0, 1);
    let h2 = head.subrange(0, 2);
    let h3 = head.subrange(0, 3);
    assert(h3 =~= head.drop_last());
    assert(h2 =~= h3.drop_last());
    assert(h1 =~= h2.drop_last());
    assert(h1.drop_last().len() == 0);
    assert(run(fs, h1.drop_last()) == fs);
    assert(h1.last() == acts[0]);
    assert(run(fs, h1) == step(fs, acts[0]));
    assert(run(fs, h2) == step(run(fs, h1), acts[1]));
    assert(run(fs, h3) == step(run(fs, h2), acts[2]));
    assert(run(fs, head) == step(run(fs, h3), acts[3]));
    let mid = run(fs, head);
    assert forall|j: int| 0 <= j < tail.len() implies removes(#[trigger] tail[j], sandbox_files[j]@) by {
        assert(removes(acts[j + 4], sandbox_files[j + 4 - 4]@));
    }
    lemma_removals_keep(mid, tail, sandbox_files, native_path(config_dir, true));
    lemma_removals_keep(mid, tail, sandbox_files, native_path(config_dir, false));
}

} // verus!
