use vstd::prelude::*;

use crate::settings::Config;

verus! {

/// What a synchronization pass achieved.
pub struct ApplyResult {
    /// The native modern-dialect target written, or why not.
    pub native_gtk4: Result<String, String>,
    /// The native legacy-dialect target written, or why not.
    pub native_gtk3: Result<String, String>,
    /// How many sandbox stylesheets were written.
    pub flatpak_count: usize,
    /// One line per sandbox failure.
    pub flatpak_errors: Vec<String>,
}

/// A sandbox directory and which dialect configuration directories it has.
pub struct SandboxDir {
    pub path: String,
    pub has_gtk4: bool,
    pub has_gtk3: bool,
}

/// A sandbox stylesheet to write: the sandbox it belongs to, its path, and
/// whether it takes the modern dialect.
pub struct WriteTarget {
    pub owner: String,
    pub path: String,
    pub modern: bool,
}

pub open spec fn sandbox_entries(d: SandboxDir) -> Seq<(Seq<char>, Seq<char>, bool)> {
    (if d.has_gtk4 {
        seq![(d.path@, d.path@ + "/config/gtk-4.0/gtk.css"@, true)]
    } else {
        Seq::empty()
    }) + (if d.has_gtk3 {
        seq![(d.path@, d.path@ + "/config/gtk-3.0/gtk.css"@, false)]
    } else {
        Seq::empty()
    })
}

/// The stylesheets to write for a list of sandboxes, in order.
pub open spec fn targets_of(dirs: Seq<SandboxDir>) -> Seq<(Seq<char>, Seq<char>, bool)>
    decreases dirs.len(),
{
    if dirs.len() == 0 {
        Seq::empty()
    } else {
        targets_of(dirs.drop_last()) + sandbox_entries(dirs.last())
    }
}

pub open spec fn target_views(t: Seq<WriteTarget>) -> Seq<(Seq<char>, Seq<char>, bool)> {
    t.map_values(|w: WriteTarget| (w.owner@, w.path@, w.modern))
}

fn target(dir: &String, modern: bool) -> (r: WriteTarget)
    ensures
        r.owner@ == dir@,
        r.path@ == dir@ + if modern {
            "/config/gtk-4.0/gtk.css"@
        } else {
            "/config/gtk-3.0/gtk.css"@
        },
        r.modern == modern,
{
    let mut path = dir.clone();
    if modern {
        path.append("/config/gtk-4.0/gtk.css");
    } else {
        path.append("/config/gtk-3.0/gtk.css");
    }
    WriteTarget { owner: dir.clone(), path, modern }
}

/// The sandbox stylesheets a pass writes: none unless sandbox distribution is
/// on, else one per dialect directory that each sandbox has.
pub fn plan_sandbox_writes(config: &Config, dirs: &Vec<SandboxDir>) -> (r: Vec<WriteTarget>)
    ensures
        target_views(r@) == if config.apply_to_flatpaks {
            targets_of(dirs@)
        } else {
            Seq::empty()
        },
{
    let mut r: Vec<WriteTarget> = Vec::new();
    if !config.apply_to_flatpaks {
        assert(target_views(r@) =~= Seq::empty());
        return r;
    }
    let mut i: usize = 0;
    while i < dirs.len()
        invariant
            i <= dirs@.len(),
            target_views(r@) == targets_of(dirs@.take(i as int)),
        decreases dirs@.len() - i,
    {
        let ghost before = r@;
        let d = &dirs[i];
        if d.has_gtk4 {
            r.push(target(&d.path, true));
        }
        if d.has_gtk3 {
            r.push(target(&d.path, false));
        }
        assert(dirs@.take(i + 1).drop_last() =~= dirs@.take(i as int));
        assert(target_views(r@) =~= target_views(before) + sandbox_entries(dirs@[i as int]));
        i = i + 1;
    }
    assert(dirs@.take(dirs@.len() as int) =~= dirs@);
    r
}

/// How many writes succeeded.
pub open spec fn ok_count(o: Seq<Result<(), String>>) -> nat
    decreases o.len(),
{
    if o.len() == 0 {
        0
    } else {
        ok_count(o.drop_last()) + if o.last() is Ok {
            1nat
        } else {
            0nat
        }
    }
}

/// One `"<sandbox>: <message>"` line per failed write, in order.
pub open spec fn error_lines(t: Seq<WriteTarget>, o: Seq<Result<(), String>>) -> Seq<Seq<char>>
    decreases o.len(),
{
    if o.len() == 0 {
        Seq::empty()
    } else {
        let prev = error_lines(t, o.drop_last());
        match o.last() {
            Ok(_) => prev,
            Err(e) => prev.push(t[o.len() - 1].owner@ + ": "@ + e@),
        }
    }
}

pub open spec fn font_error_lines(f: Option<Result<(), String>>) -> Seq<Seq<char>> {
    match f {
        Some(Err(e)) => seq!["Font override: "@ + e@],
        _ => Seq::empty(),
    }
}

pub open spec fn string_views(v: Seq<String>) -> Seq<Seq<char>> {
    v.map_values(|s: String| s@)
}

pub open spec fn theme_missing_message() -> Seq<char> {
    "Failed to read COSMIC theme"@
}

/// Gathers the outcome of a pass. `outcomes[i]` is the result of writing
/// `targets[i]`; `font_override` is the outcome of the font-access grant, if
/// one was attempted. Without a theme nothing was written and the result says
/// so on every count.
pub fn apply_theme(
    theme_loaded: bool,
    native_gtk4: Result<String, String>,
    native_gtk3: Result<String, String>,
    targets: &Vec<WriteTarget>,
    outcomes: &Vec<Result<(), String>>,
    font_override: Option<Result<(), String>>,
) -> (r: ApplyResult)
    requires
        outcomes@.len() == targets@.len(),
    ensures
        !theme_loaded ==> (r.native_gtk4 is Err && r.native_gtk4->Err_0@ == theme_missing_message()
            && r.native_gtk3 is Err && r.native_gtk3->Err_0@ == theme_missing_message()
            && r.flatpak_count == 0 && string_views(r.flatpak_errors@) == seq![
            theme_missing_message(),
        ]),
        theme_loaded ==> (r.native_gtk4 == native_gtk4 && r.native_gtk3 == native_gtk3
            && r.flatpak_count == ok_count(outcomes@) && string_views(r.flatpak_errors@)
            == error_lines(targets@, outcomes@) + font_error_lines(font_override)),
{
    if !theme_loaded {
        let mut errors: Vec<String> = Vec::new();
        errors.push("Failed to read COSMIC theme".to_owned());
        assert(string_views(errors@) =~= seq![theme_missing_message()]);
        return ApplyResult {
            native_gtk4: Err("Failed to read COSMIC theme".to_owned()),
            native_gtk3: Err("Failed to read COSMIC theme".to_owned()),
            flatpak_count: 0,
            flatpak_errors: errors,
        };
    }
    let mut count: usize = 0;
    let mut errors: Vec<String> = Vec::new();
    let mut i: usize = 0;
    while i < outcomes.len()
        invariant
            i <= outcomes@.len(),
            outcomes@.len() == targets@.len(),
            count == ok_count(outcomes@.take(i as int)),
            count <= i,
            string_views(errors@) == error_lines(targets@, outcomes@.take(i as int)),
        decreases outcomes@.len() - i,
    {
        let ghost before = errors@;
        assert(outcomes@.take(i + 1).drop_last() =~= outcomes@.take(i as int));
        assert(outcomes@.take(i + 1).last() == outcomes@[i as int]);
        match &outcomes[i] {
            Ok(()) => {
                count = count + 1;
            },
            Err(e) => {
                let mut line = targets[i].owner.clone();
                line.append(": ");
                line.append(e.as_str());
                errors.push(line);
                assert(string_views(errors@) =~= string_views(before).push(
                    targets@[i as int].owner@ + ": "@ + e@,
                ));
            },
        }
        i = i + 1;
    }
    assert(outcomes@.take(outcomes@.len() as int) =~= outcomes@);
    let ghost before = errors@;
    match &font_override {
        Some(Err(e)) => {
            let mut line = "Font override: ".to_owned();
            line.append(e.as_str());
            errors.push(line);
            assert(string_views(errors@) =~= string_views(before) + font_error_lines(
                font_override,
            ));
        },
        _ => {
            assert(string_views(errors@) =~= string_views(before) + font_error_lines(
                font_override,
            ));
        },
    }
    ApplyResult { native_gtk4, native_gtk3, flatpak_count: count, flatpak_errors: errors }
}

/// Sandbox font access is granted only when sandbox distribution is on too.
pub fn wants_font_grant(config: &Config) -> (r: bool)
    ensures
        r == (config.apply_to_flatpaks && config.fix_flatpak_fonts),
{
    config.apply_to_flatpaks && config.fix_flatpak_fonts
}

/// The paths that sandboxes are granted read access to for fonts, each as the
/// argument of a filesystem grant.
pub fn font_override_args() -> (r: Vec<String>)
    ensures
        string_views(r@) == seq![
            "--filesystem=/usr/share/fonts:ro"@,
            "--filesystem=xdg-data/fonts:ro"@,
            "--filesystem=~/.fonts:ro"@,
        ],
{
    let mut r: Vec<String> = Vec::new();
    r.push("--filesystem=/usr/share/fonts:ro".to_owned());
    r.push("--filesystem=xdg-data/fonts:ro".to_owned());
    r.push("--filesystem=~/.fonts:ro".to_owned());
    assert(string_views(r@) =~= seq![
        "--filesystem=/usr/share/fonts:ro"@,
        "--filesystem=xdg-data/fonts:ro"@,
        "--filesystem=~/.fonts:ro"@,
    ]);
    r
}

/// With no sandboxes discovered there is nothing to write: the count is zero
/// and, unless the font-access grant could not be launched, no error is
/// recorded.
pub proof fn lemma_no_sandboxes(c: Config, dirs: Seq<SandboxDir>, f: Option<Result<(), String>>)
    requires
        dirs.len() == 0,
        !(f matches Some(Err(_))),
    ensures
        targets_of(dirs).len() == 0,
        ok_count(Seq::<Result<(), String>>::empty()) == 0,
        error_lines(Seq::<WriteTarget>::empty(), Seq::<Result<(), String>>::empty())
            + font_error_lines(f) == Seq::<Seq<char>>::empty(),
{
    assert(error_lines(Seq::<WriteTarget>::empty(), Seq::<Result<(), String>>::empty())
        + font_error_lines(f) =~= Seq::<Seq<char>>::empty());
}

} // verus!
