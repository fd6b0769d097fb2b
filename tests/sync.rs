use gtk_theme_sync::color::Rgba;
use gtk_theme_sync::css::{generate_color_definitions, generate_gtk3_css, generate_gtk4_css};
use gtk_theme_sync::distribute::{
    apply_theme, font_override_args, plan_sandbox_writes, wants_font_grant, SandboxDir,
    WriteTarget,
};
use gtk_theme_sync::fsmodel::FsAction;
use gtk_theme_sync::restore::{native_target, restore_cosmic_symlinks, restored_message};
use gtk_theme_sync::settings::{apply_status, restore_status, App, Config, Message, Task};
use gtk_theme_sync::theme::{
    is_dark_from, is_dark_from_decoded, Component, Container, CosmicTheme, FontConfig,
    FontStretch, FontStyle, FontWeight,
};
use gtk_theme_sync::watch::{count_triggers, counts_as_change, ChangeKind, Debouncer};

fn rgba(r: f64, g: f64, b: f64, a: f64) -> Rgba {
    let m = |x: f64| (x * 1_000_000.0).round() as i32;
    Rgba { red: m(r), green: m(g), blue: m(b), alpha: m(a) }
}

fn component(base: Rgba, hover: Rgba, pressed: Rgba) -> Component {
    let z = rgba(0.0, 0.0, 0.0, 1.0);
    Component {
        base,
        hover,
        pressed,
        selected: z,
        selected_text: z,
        focus: z,
        divider: z,
        on: rgba(1.0, 1.0, 1.0, 1.0),
        disabled: z,
        on_disabled: z,
        border: z,
        disabled_border: z,
    }
}

fn container(base: Rgba) -> Container {
    Container {
        base,
        component: component(rgba(0.2, 0.2, 0.2, 1.0), rgba(0.3, 0.3, 0.3, 1.0), rgba(0.4, 0.4, 0.4, 1.0)),
        divider: rgba(0.5, 0.5, 0.5, 1.0),
        on: rgba(1.0, 1.0, 1.0, 1.0),
        small_widget: rgba(0.1, 0.1, 0.1, 1.0),
    }
}

fn theme(font: Option<&str>) -> CosmicTheme {
    let accent = component(rgba(0.0, 0.5, 1.0, 1.0), rgba(0.1, 0.6, 1.0, 1.0), rgba(0.0, 0.4, 0.9, 1.0));
    CosmicTheme::load(
        true,
        Some(accent),
        Some(component(rgba(1.0, 0.0, 0.0, 1.0), rgba(1.0, 0.0, 0.0, 1.0), rgba(1.0, 0.0, 0.0, 1.0))),
        Some(component(rgba(1.0, 1.0, 0.0, 1.0), rgba(1.0, 1.0, 0.0, 1.0), rgba(1.0, 1.0, 0.0, 1.0))),
        Some(component(rgba(0.0, 1.0, 0.0, 1.0), rgba(0.0, 1.0, 0.0, 1.0), rgba(0.0, 1.0, 0.0, 1.0))),
        Some(container(rgba(0.1, 0.1, 0.1, 1.0))),
        Some(container(rgba(0.15, 0.15, 0.15, 1.0))),
        Some(container(rgba(0.2, 0.2, 0.2, 1.0))),
        font.map(|f| FontConfig {
            family: f.to_string(),
            weight: FontWeight::Normal,
            stretch: FontStretch::Normal,
            style: FontStyle::Normal,
        }),
    )
    .unwrap()
}

fn flags(button: bool, accent: bool, font: bool) -> Config {
    Config {
        remove_button_backgrounds: button,
        apply_to_flatpaks: true,
        sync_enabled: true,
        apply_accent_headerbar: accent,
        sync_font: font,
        fix_flatpak_fonts: true,
    }
}

#[test]
fn channel_above_one_clamps_to_255() {
    assert_eq!(rgba(1.4, 0.0, 0.0, 1.0).to_css(), "rgba(255, 0, 0, 1.00)");
}

#[test]
fn channel_below_zero_clamps_to_0() {
    assert_eq!(rgba(-0.3, 0.0, 0.0, 1.0).to_css(), "rgba(0, 0, 0, 1.00)");
}

#[test]
fn channels_round_to_nearest() {
    assert_eq!(rgba(1.0, 0.5, 0.0, 1.0).to_css(), "rgba(255, 128, 0, 1.00)");
}

#[test]
fn alpha_near_one_is_opaque() {
    assert_eq!(rgba(0.0, 0.0, 0.0, 0.9995).to_css(), "rgba(0, 0, 0, 1.00)");
    assert_eq!(rgba(0.0, 0.0, 0.0, 1.0).to_css(), "rgba(0, 0, 0, 1.00)");
}

#[test]
fn alpha_half_has_two_decimals() {
    assert_eq!(rgba(0.0, 0.0, 0.0, 0.5).to_css(), "rgba(0, 0, 0, 0.50)");
    assert_eq!(rgba(0.0, 0.0, 0.0, 0.07).to_css(), "rgba(0, 0, 0, 0.07)");
}

#[test]
fn mode_marker_defaults_to_dark() {
    assert!(is_dark_from(None));
    assert!(is_dark_from(Some("not ron at all {")));
    assert!(is_dark_from(Some("true")));
    assert!(!is_dark_from(Some("false")));
    assert!(!is_dark_from_decoded(Some(false)));
    assert!(is_dark_from_decoded(None));
}

#[test]
fn theme_needs_every_required_record() {
    let full = theme(None);
    let missing = CosmicTheme::load(
        false,
        Some(full.accent),
        None,
        Some(full.warning),
        Some(full.success),
        Some(full.background),
        Some(full.primary),
        Some(full.secondary),
        None,
    );
    assert!(missing.is_none());
    assert!(full.interface_font.is_none());
}

#[test]
fn theme_dir_follows_mode() {
    let t = theme(None);
    assert_eq!(t.theme_config_dir("/home/u/.config"), "/home/u/.config/cosmic/com.system76.CosmicTheme.Dark/v1");
}

#[test]
fn no_fragments_gives_base_alone() {
    let t = theme(Some("Inter"));
    let c = flags(false, false, false);
    assert_eq!(generate_gtk4_css(&t, &c, Some("BASE\n")), "BASE\n");
    assert_eq!(generate_gtk3_css(&t, &c, Some("BASE\n")), "BASE\n");
    assert_eq!(generate_gtk4_css(&t, &c, None), generate_color_definitions(&t));
}

#[test]
fn generation_is_deterministic() {
    let t = theme(Some("Inter"));
    let c = flags(true, true, true);
    assert_eq!(generate_gtk4_css(&t, &c, None), generate_gtk4_css(&t, &c, None));
    assert_eq!(generate_gtk3_css(&t, &c, Some("X")), generate_gtk3_css(&t, &c, Some("X")));
}

#[test]
fn no_font_means_no_font_rule() {
    let t = theme(None);
    let on = generate_gtk4_css(&t, &flags(true, true, true), Some("B"));
    let off = generate_gtk4_css(&t, &flags(true, true, false), Some("B"));
    assert_eq!(on, off);
    assert!(!on.contains("font-family"));
}

#[test]
fn font_rule_quotes_family() {
    let t = theme(Some("Fira Sans"));
    let css = generate_gtk4_css(&t, &flags(false, false, true), Some(""));
    assert_eq!(css, "\n/* COSMIC interface font */\n* {\n    font-family: \"Fira Sans\", sans-serif;\n}\n");
}

#[test]
fn fallback_defines_named_colors() {
    let t = theme(None);
    let css = generate_color_definitions(&t);
    assert!(css.starts_with("/* Generated by cosmic-ext-gtk-theme (fallback) */\n"));
    assert!(css.contains("@define-color window_bg_color rgba(26, 26, 26, 1.00);\n"));
    assert!(css.contains("@define-color accent_color rgba(0, 128, 255, 1.00);\n"));
    assert!(css.contains("@define-color error_color rgba(255, 0, 0, 1.00);\n"));
    assert_eq!(css.matches("@define-color").count(), 39);
}

#[test]
fn legacy_dialect_includes_modern_fragments() {
    let t = theme(None);
    let c = flags(true, true, false);
    let modern = generate_gtk4_css(&t, &c, Some(""));
    let legacy = generate_gtk3_css(&t, &c, Some(""));
    assert!(modern.contains("windowcontrols button:hover {\n    background: none;\n    background-color: rgba(77, 77, 77, 1.00);"));
    assert!(legacy.contains("windowcontrols button:hover"));
    assert!(legacy.contains("headerbar button.titlebutton {\n    color: rgba(0, 128, 255, 1.00);"));
    assert!(!modern.contains("titlebutton"));
    assert!(modern.contains("windowcontrols button:hover image {\n    color: rgba(26, 153, 255, 1.00);"));
}

#[test]
fn restore_without_source_fails_with_path() {
    let r = restore_cosmic_symlinks("/c", true, false, &vec!["/s/a.css".to_string()]);
    assert_eq!(r.unwrap_err(), "COSMIC CSS not found at /c/gtk-4.0/cosmic/dark.css");
    let r = restore_cosmic_symlinks("/c", false, false, &vec![]);
    assert_eq!(r.unwrap_err(), "COSMIC CSS not found at /c/gtk-4.0/cosmic/light.css");
}

#[test]
fn restore_links_natives_and_removes_sandbox_copies() {
    let acts = restore_cosmic_symlinks("/c", true, true, &vec!["/s/a.css".to_string()]).unwrap();
    assert_eq!(acts.len(), 5);
    match &acts[1] {
        FsAction::Symlink(l, t) => {
            assert_eq!(l, "/c/gtk-4.0/gtk.css");
            assert_eq!(t, "/c/gtk-4.0/cosmic/dark.css");
        }
        _ => panic!("expected a link"),
    }
    match &acts[3] {
        FsAction::Symlink(l, _) => assert_eq!(l, "/c/gtk-3.0/gtk.css"),
        _ => panic!("expected a link"),
    }
    match &acts[4] {
        FsAction::RemoveFile(p) => assert_eq!(p, "/s/a.css"),
        _ => panic!("expected a removal"),
    }
    assert_eq!(restored_message(3), "Restored 3 files");
    assert_eq!(native_target("/c", false), "/c/gtk-3.0/gtk.css");
}

#[test]
fn write_unlinks_before_writing() {
    let steps = gtk_theme_sync::fsmodel::write_steps("/c/gtk-4.0/gtk.css", "body");
    assert_eq!(steps.len(), 3);
    assert!(matches!(&steps[1], FsAction::RemoveIfSymlink(p) if p == "/c/gtk-4.0/gtk.css"));
    assert!(matches!(&steps[2], FsAction::WriteFile(p, c) if p == "/c/gtk-4.0/gtk.css" && c == "body"));
}

#[test]
fn empty_sandbox_root_is_no_failure() {
    let targets = plan_sandbox_writes(&flags(true, true, true), &vec![]);
    assert!(targets.is_empty());
    let r = apply_theme(true, Ok("/a".to_string()), Ok("/b".to_string()), &targets, &vec![], Some(Ok(())));
    assert_eq!(r.flatpak_count, 0);
    assert!(r.flatpak_errors.is_empty());
    assert_eq!(r.native_gtk4, Ok("/a".to_string()));
}

#[test]
fn sandbox_targets_follow_dialect_dirs() {
    let dirs = vec![
        SandboxDir { path: "/v/one".to_string(), has_gtk4: true, has_gtk3: false },
        SandboxDir { path: "/v/two".to_string(), has_gtk4: true, has_gtk3: true },
    ];
    let t = plan_sandbox_writes(&flags(true, true, true), &dirs);
    let paths: Vec<&str> = t.iter().map(|w| w.path.as_str()).collect();
    assert_eq!(paths, vec!["/v/one/config/gtk-4.0/gtk.css", "/v/two/config/gtk-4.0/gtk.css", "/v/two/config/gtk-3.0/gtk.css"]);
    let mut off = flags(true, true, true);
    off.apply_to_flatpaks = false;
    assert!(plan_sandbox_writes(&off, &dirs).is_empty());
}

#[test]
fn sandbox_failures_are_recorded_not_fatal() {
    let targets = vec![
        WriteTarget { owner: "/v/one".to_string(), path: "/v/one/x".to_string(), modern: true },
        WriteTarget { owner: "/v/two".to_string(), path: "/v/two/x".to_string(), modern: false },
    ];
    let outcomes = vec![Ok(()), Err("denied".to_string())];
    let r = apply_theme(true, Ok("/a".to_string()), Err("disk".to_string()), &targets, &outcomes, Some(Err("no flatpak".to_string())));
    assert_eq!(r.flatpak_count, 1);
    assert_eq!(r.flatpak_errors, vec!["/v/two: denied".to_string(), "Font override: no flatpak".to_string()]);
    assert_eq!(r.native_gtk3, Err("disk".to_string()));
}

#[test]
fn missing_theme_fails_every_target() {
    let r = apply_theme(false, Ok("/a".to_string()), Ok("/b".to_string()), &vec![], &vec![], None);
    assert_eq!(r.native_gtk4, Err("Failed to read COSMIC theme".to_string()));
    assert_eq!(r.native_gtk3, Err("Failed to read COSMIC theme".to_string()));
    assert_eq!(r.flatpak_count, 0);
    assert_eq!(r.flatpak_errors, vec!["Failed to read COSMIC theme".to_string()]);
}

#[test]
fn font_grant_needs_sandbox_distribution() {
    let mut c = Config::default();
    assert!(wants_font_grant(&c));
    c.apply_to_flatpaks = false;
    assert!(!wants_font_grant(&c));
    c.apply_to_flatpaks = true;
    c.fix_flatpak_fonts = false;
    assert!(!wants_font_grant(&c));
}

#[test]
fn font_grants_are_read_only() {
    assert_eq!(
        font_override_args(),
        vec!["--filesystem=/usr/share/fonts:ro", "--filesystem=xdg-data/fonts:ro", "--filesystem=~/.fonts:ro"]
    );
}

#[test]
fn one_burst_one_trigger() {
    assert_eq!(count_triggers(&vec![0, 100, 200, 650, 1100]), 1);
    assert_eq!(count_triggers(&vec![]), 0);
}

#[test]
fn two_bursts_two_triggers() {
    assert_eq!(count_triggers(&vec![0, 100, 700, 800]), 2);
}

#[test]
fn only_creations_and_modifications_count() {
    assert!(counts_as_change(ChangeKind::Create));
    assert!(counts_as_change(ChangeKind::Modify));
    assert!(!counts_as_change(ChangeKind::Remove));
    let mut d = Debouncer::new();
    d.on_event(ChangeKind::Remove, 10);
    assert!(!d.on_tick(1000));
    d.on_event(ChangeKind::Modify, 10);
    assert!(!d.on_tick(400));
    assert!(d.on_tick(511));
    assert!(!d.on_tick(2000));
}

#[test]
fn toggles_save_and_reapply() {
    let (mut app, task) = App::init(Config::default());
    assert_eq!(task, Task::Apply);
    assert_eq!(app.status_text, "Applying theme...");
    let (save, task) = app.update(Message::ApplyResult("done".to_string()));
    assert!(!save && task == Task::Nothing && !app.applying);
    assert_eq!(app.status_text, "done");
    let (save, task) = app.update(Message::ToggleSyncFont(false));
    assert!(save && task == Task::Apply && !app.config.sync_font);
    let (save, task) = app.update(Message::ToggleSync(false));
    assert!(save && task == Task::Nothing);
    let (_, task) = app.update(Message::ThemeChanged);
    assert_eq!(task, Task::Nothing);
    let (_, task) = app.update(Message::Restore);
    assert_eq!(task, Task::Restore);
    assert_eq!(app.status_text, "Restoring...");
}

#[test]
fn status_lines_describe_outcome() {
    let r = apply_theme(true, Ok("/a".to_string()), Err("denied".to_string()), &vec![], &vec![], Some(Err("x".to_string())));
    assert_eq!(apply_status(&r, &Config::default()), "GTK4: OK\nGTK3: denied\nFlatpak: 0 apps updated (1 errors)");
    assert_eq!(restore_status(&Ok("Restored 2 files".to_string())), "Restored: Restored 2 files");
    assert_eq!(restore_status(&Err("e".to_string())), "Error: e");
}
