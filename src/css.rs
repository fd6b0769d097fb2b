use vstd::prelude::*;

use crate::color::{css_of, Rgba};
use crate::settings::Config;
use crate::theme::CosmicTheme;

verus! {

#[verifier::opaque]
pub open spec fn button_removal_gtk4_text(t: CosmicTheme) -> Seq<char> {
    "\n/* Window control button styling (COSMIC-style) */\nwindowcontrols button {\n    background: none;\n    background-color: transparent;\n    box-shadow: none;\n    border: none;\n    border-radius: 50%;\n}\nwindowcontrols button:hover {\n    background: none;\n    background-color: "@
        + css_of(t.background.component.hover)
        + ";\n    box-shadow: none;\n    border: none;\n}\nwindowcontrols button:active {\n    background: none;\n    background-color: "@
        + css_of(t.background.component.pressed)
        + ";\n    box-shadow: none;\n    border: none;\n}\nwindowcontrols button image {\n    background: none;\n    background-color: transparent;\n}\n"@
}

/// Clears the window-control button backgrounds (modern dialect), with hover and pressed colours from the background tier.
fn button_removal_gtk4_css(theme: &CosmicTheme) -> (r: String)
    ensures
        r@ == button_removal_gtk4_text(*theme),
{
    reveal(button_removal_gtk4_text);
    let mut s = String::new();
    s.append("\n/* Window control button styling (COSMIC-style) */\nwindowcontrols button {\n    background: none;\n    background-color: transparent;\n    box-shadow: none;\n    border: none;\n    border-radius: 50%;\n}\nwindowcontrols button:hover {\n    background: none;\n    background-color: ");
    let c = theme.background.component.hover.to_css();
    s.append(c.as_str());
    s.append(";\n    box-shadow: none;\n    border: none;\n}\nwindowcontrols button:active {\n    background: none;\n    background-color: ");
    let c = theme.background.component.pressed.to_css();
    s.append(c.as_str());
    s.append(";\n    box-shadow: none;\n    border: none;\n}\nwindowcontrols button image {\n    background: none;\n    background-color: transparent;\n}\n");
    assert(s@ =~= button_removal_gtk4_text(*theme));
    s
}

#[verifier::opaque]
pub open spec fn button_removal_gtk3_text(t: CosmicTheme) -> Seq<char> {
    "\n/* GTK3: Window control button styling (COSMIC-style) */\nheaderbar button.titlebutton,\n.titlebar button.titlebutton {\n    background: none;\n    background-color: transparent;\n    background-image: none;\n    box-shadow: none;\n    border: none;\n}\nheaderbar button.titlebutton:hover,\n.titlebar button.titlebutton:hover {\n    background: none;\n    background-color: "@
        + css_of(t.background.component.hover)
        + ";\n    background-image: none;\n    box-shadow: none;\n    border: none;\n}\nheaderbar button.titlebutton:active,\n.titlebar button.titlebutton:active {\n    background: none;\n    background-color: "@
        + css_of(t.background.component.pressed)
        + ";\n    background-image: none;\n    box-shadow: none;\n    border: none;\n}\n"@
}

/// Clears the title-button backgrounds (legacy dialect), with hover and pressed colours from the background tier.
fn button_removal_gtk3_css(theme: &CosmicTheme) -> (r: String)
    ensures
        r@ == button_removal_gtk3_text(*theme),
{
    reveal(button_removal_gtk3_text);
    let mut s = String::new();
    s.append("\n/* GTK3: Window control button styling (COSMIC-style) */\nheaderbar button.titlebutton,\n.titlebar button.titlebutton {\n    background: none;\n    background-color: transparent;\n    background-image: none;\n    box-shadow: none;\n    border: none;\n}\nheaderbar button.titlebutton:hover,\n.titlebar button.titlebutton:hover {\n    background: none;\n    background-color: ");
    let c = theme.background.component.hover.to_css();
    s.append(c.as_str());
    s.append(";\n    background-image: none;\n    box-shadow: none;\n    border: none;\n}\nheaderbar button.titlebutton:active,\n.titlebar button.titlebutton:active {\n    background: none;\n    background-color: ");
    let c = theme.background.component.pressed.to_css();
    s.append(c.as_str());
    s.append(";\n    background-image: none;\n    box-shadow: none;\n    border: none;\n}\n");
    assert(s@ =~= button_removal_gtk3_text(*theme));
    s
}

#[verifier::opaque]
pub open spec fn accent_window_gtk4_text(t: CosmicTheme) -> Seq<char> {
    "\n/* Accent-colored window control icons when focused (COSMIC-style) */\nwindowcontrols button image {\n    color: "@
        + css_of(t.accent.base)
        + ";\n    -gtk-icon-style: symbolic;\n}\nwindowcontrols button:hover image {\n    color: "@
        + css_of(t.accent.hover)
        + ";\n}\nwindowcontrols button:backdrop image {\n    color: @headerbar_fg_color;\n}\nheaderbar:backdrop windowcontrols button image {\n    color: @headerbar_fg_color;\n}\n"@
}

/// Colours the window-control icons with the accent (modern dialect); unfocused windows use the header foreground.
fn accent_window_gtk4_css(theme: &CosmicTheme) -> (r: String)
    ensures
        r@ == accent_window_gtk4_text(*theme),
{
    reveal(accent_window_gtk4_text);
    let mut s = String::new();
    s.append("\n/* Accent-colored window control icons when focused (COSMIC-style) */\nwindowcontrols button image {\n    color: ");
    let c = theme.accent.base.to_css();
    s.append(c.as_str());
    s.append(";\n    -gtk-icon-style: symbolic;\n}\nwindowcontrols button:hover image {\n    color: ");
    let c = theme.accent.hover.to_css();
    s.append(c.as_str());
    s.append(";\n}\nwindowcontrols button:backdrop image {\n    color: @headerbar_fg_color;\n}\nheaderbar:backdrop windowcontrols button image {\n    color: @headerbar_fg_color;\n}\n");
    assert(s@ =~= accent_window_gtk4_text(*theme));
    s
}

#[verifier::opaque]
pub open spec fn accent_window_gtk3_text(t: CosmicTheme) -> Seq<char> {
    "\n/* GTK3: Accent-colored titlebutton icons when focused */\nheaderbar button.titlebutton {\n    color: "@
        + css_of(t.accent.base)
        + ";\n}\nheaderbar:backdrop button.titlebutton {\n    color: @headerbar_fg_color;\n}\n.titlebar button.titlebutton {\n    color: "@
        + css_of(t.accent.base)
        + ";\n}\n.titlebar:backdrop button.titlebutton {\n    color: @headerbar_fg_color;\n}\n"@
}

/// Colours the title-button icons with the accent (legacy dialect); unfocused windows use the header foreground.
fn accent_window_gtk3_css(theme: &CosmicTheme) -> (r: String)
    ensures
        r@ == accent_window_gtk3_text(*theme),
{
    reveal(accent_window_gtk3_text);
    let mut s = String::new();
    s.append("\n/* GTK3: Accent-colored titlebutton icons when focused */\nheaderbar button.titlebutton {\n    color: ");
    let c = theme.accent.base.to_css();
    s.append(c.as_str());
    s.append(";\n}\nheaderbar:backdrop button.titlebutton {\n    color: @headerbar_fg_color;\n}\n.titlebar button.titlebutton {\n    color: ");
    let c = theme.accent.base.to_css();
    s.append(c.as_str());
    s.append(";\n}\n.titlebar:backdrop button.titlebutton {\n    color: @headerbar_fg_color;\n}\n");
    assert(s@ =~= accent_window_gtk3_text(*theme));
    s
}

/// The font rule: forces the interface family, with a sans-serif fallback.
pub open spec fn font_text(t: CosmicTheme) -> Seq<char> {
    match t.interface_font {
        Some(f) => "\n/* COSMIC interface font */\n* {\n    font-family: \""@ + f.family@
            + "\", sans-serif;\n}\n"@,
        None => Seq::empty(),
    }
}

fn font_css(theme: &CosmicTheme) -> (r: String)
    ensures
        r@ == font_text(*theme),
{
    match &theme.interface_font {
        Some(font) => {
            let mut s = String::new();
            s.append("\n/* COSMIC interface font */\n* {\n    font-family: \"");
            s.append(font.family.as_str());
            s.append("\", sans-serif;\n}\n");
            assert(s@ =~= font_text(*theme));
            s
        },
        None => String::new(),
    }
}

/// The named colour variables of the fallback base, each with its theme colour.
pub open spec fn color_roles(t: CosmicTheme) -> Seq<(Seq<char>, Rgba)> {
    seq![
        ("window_bg_color"@, t.background.base),
        ("window_fg_color"@, t.background.on),
        ("view_bg_color"@, t.primary.base),
        ("view_fg_color"@, t.primary.on),
        ("headerbar_bg_color"@, t.background.base),
        ("headerbar_fg_color"@, t.background.on),
        ("headerbar_border_color_color"@, t.background.divider),
        ("headerbar_backdrop_color"@, t.background.base),
        ("sidebar_bg_color"@, t.primary.base),
        ("sidebar_fg_color"@, t.primary.on),
        ("sidebar_shade_color"@, t.primary.small_widget),
        ("sidebar_backdrop_color"@, t.primary.component.hover),
        ("secondary_sidebar_bg_color"@, t.secondary.base),
        ("secondary_sidebar_fg_color"@, t.secondary.on),
        ("secondary_sidebar_shade_color"@, t.secondary.small_widget),
        ("secondary_sidebar_backdrop_color"@, t.secondary.component.hover),
        ("card_bg_color"@, t.background.component.base),
        ("card_fg_color"@, t.background.component.on),
        ("thumbnail_bg_color"@, t.background.component.base),
        ("thumbnail_fg_color"@, t.background.component.on),
        ("dialog_bg_color"@, t.primary.base),
        ("dialog_fg_color"@, t.primary.on),
        ("popover_bg_color"@, t.background.component.base),
        ("popover_fg_color"@, t.background.component.on),
        ("accent_color"@, t.accent.base),
        ("accent_bg_color"@, t.accent.base),
        ("accent_fg_color"@, t.accent.on),
        ("destructive_color"@, t.destructive.base),
        ("destructive_bg_color"@, t.destructive.base),
        ("destructive_fg_color"@, t.destructive.on),
        ("warning_color"@, t.warning.base),
        ("warning_bg_color"@, t.warning.base),
        ("warning_fg_color"@, t.warning.on),
        ("success_color"@, t.success.base),
        ("success_bg_color"@, t.success.base),
        ("success_fg_color"@, t.success.on),
        ("error_color"@, t.destructive.base),
        ("error_bg_color"@, t.destructive.base),
        ("error_fg_color"@, t.destructive.on),
    ]
}

pub open spec fn define_line(name: Seq<char>, c: Rgba) -> Seq<char> {
    "@define-color "@ + name + " "@ + css_of(c) + ";\n"@
}

/// The definition lines of the first `n` roles.
pub open spec fn define_lines(roles: Seq<(Seq<char>, Rgba)>, n: nat) -> Seq<char>
    decreases n,
{
    if n == 0 || n > roles.len() {
        Seq::empty()
    } else {
        define_lines(roles, (n - 1) as nat) + define_line(roles[n - 1].0, roles[n - 1].1)
    }
}

/// The fallback base: a header and one definition per colour role.
pub open spec fn color_definitions_text(t: CosmicTheme) -> Seq<char> {
    "/* Generated by cosmic-ext-gtk-theme (fallback) */\n"@ + define_lines(
        color_roles(t),
        color_roles(t).len(),
    )
}

/// Synthesizes the base stylesheet from the theme, for when the desktop has
/// not rendered its own.
pub fn generate_color_definitions(theme: &CosmicTheme) -> (r: String)
    ensures
        r@ == color_definitions_text(*theme),
{
    let roles: Vec<(&str, Rgba)> = vec![
        ("window_bg_color", theme.background.base),
        ("window_fg_color", theme.background.on),
        ("view_bg_color", theme.primary.base),
        ("view_fg_color", theme.primary.on),
        ("headerbar_bg_color", theme.background.base),
        ("headerbar_fg_color", theme.background.on),
        ("headerbar_border_color_color", theme.background.divider),
        ("headerbar_backdrop_color", theme.background.base),
        ("sidebar_bg_color", theme.primary.base),
        ("sidebar_fg_color", theme.primary.on),
        ("sidebar_shade_color", theme.primary.small_widget),
        ("sidebar_backdrop_color", theme.primary.component.hover),
        ("secondary_sidebar_bg_color", theme.secondary.base),
        ("secondary_sidebar_fg_color", theme.secondary.on),
        ("secondary_sidebar_shade_color", theme.secondary.small_widget),
        ("secondary_sidebar_backdrop_color", theme.secondary.component.hover),
        ("card_bg_color", theme.background.component.base),
        ("card_fg_color", theme.background.component.on),
        ("thumbnail_bg_color", theme.background.component.base),
        ("thumbnail_fg_color", theme.background.component.on),
        ("dialog_bg_color", theme.primary.base),
        ("dialog_fg_color", theme.primary.on),
        ("popover_bg_color", theme.background.component.base),
        ("popover_fg_color", theme.background.component.on),
        ("accent_color", theme.accent.base),
        ("accent_bg_color", theme.accent.base),
        ("accent_fg_color", theme.accent.on),
        ("destructive_color", theme.destructive.base),
        ("destructive_bg_color", theme.destructive.base),
        ("destructive_fg_color", theme.destructive.on),
        ("warning_color", theme.warning.base),
        ("warning_bg_color", theme.warning.base),
        ("warning_fg_color", theme.warning.on),
        ("success_color", theme.success.base),
        ("success_bg_color", theme.success.base),
        ("success_fg_color", theme.success.on),
        ("error_color", theme.destructive.base),
        ("error_bg_color", theme.destructive.base),
        ("error_fg_color", theme.destructive.on),
    ];
    assert(roles@.len() == color_roles(*theme).len());
    assert forall|k: int| 0 <= k < roles@.len() implies (roles@[k].0@, roles@[k].1)
        == color_roles(*theme)[k] by {}
    let mut css = String::new();
    css.append("/* Generated by cosmic-ext-gtk-theme (fallback) */\n");
    let mut i: usize = 0;
    while i < roles.len()
        invariant
            i <= roles@.len(),
            roles@.len() == color_roles(*theme).len(),
            forall|k: int| 0 <= k < roles@.len() ==> (roles@[k].0@, roles@[k].1) == color_roles(
                *theme,
            )[k],
            css@ == "/* Generated by cosmic-ext-gtk-theme (fallback) */\n"@ + define_lines(
                color_roles(*theme),
                i as nat,
            ),
        decreases roles@.len() - i,
    {
        let (name, color) = roles[i];
        css.append("@define-color ");
        css.append(name);
        css.append(" ");
        let c = color.to_css();
        css.append(c.as_str());
        css.append(";\n");
        assert(define_lines(color_roles(*theme), (i + 1) as nat) == define_lines(
            color_roles(*theme),
            i as nat,
        ) + define_line(color_roles(*theme)[i as int].0, color_roles(*theme)[i as int].1));
        assert(css@ =~= "/* Generated by cosmic-ext-gtk-theme (fallback) */\n"@ + define_lines(
            color_roles(*theme),
            (i + 1) as nat,
        ));
        i = i + 1;
    }
    css
}

pub open spec fn str_opt(o: Option<&str>) -> Option<Seq<char>> {
    match o {
        Some(b) => Some(b@),
        None => None,
    }
}

/// The base stylesheet: the desktop's own when there is one, else the fallback.
pub open spec fn base_text(t: CosmicTheme, base: Option<Seq<char>>) -> Seq<char> {
    match base {
        Some(b) => b,
        None => color_definitions_text(t),
    }
}

pub open spec fn gated(flag: bool, s: Seq<char>) -> Seq<char> {
    if flag {
        s
    } else {
        Seq::empty()
    }
}

/// The modern-dialect stylesheet: base, then each enabled fragment in order.
pub open spec fn gtk4_text(t: CosmicTheme, c: Config, base: Option<Seq<char>>) -> Seq<char> {
    base_text(t, base) + gated(c.remove_button_backgrounds, button_removal_gtk4_text(t))
        + gated(c.apply_accent_headerbar, accent_window_gtk4_text(t)) + gated(
        c.sync_font,
        font_text(t),
    )
}

/// The legacy-dialect stylesheet: like the modern one, with each modern
/// fragment followed by its legacy counterpart.
pub open spec fn gtk3_text(t: CosmicTheme, c: Config, base: Option<Seq<char>>) -> Seq<char> {
    base_text(t, base) + gated(
        c.remove_button_backgrounds,
        button_removal_gtk4_text(t) + button_removal_gtk3_text(t),
    ) + gated(c.apply_accent_headerbar, accent_window_gtk4_text(t) + accent_window_gtk3_text(t))
        + gated(c.sync_font, font_text(t))
}

fn base_css(theme: &CosmicTheme, base: Option<&str>) -> (r: String)
    ensures
        r@ == base_text(*theme, str_opt(base)),
{
    match base {
        Some(b) => b.to_owned(),
        None => generate_color_definitions(theme),
    }
}

/// Renders the modern-dialect stylesheet. `base` is the desktop's own
/// pre-rendered stylesheet, if it could be read.
pub fn generate_gtk4_css(theme: &CosmicTheme, config: &Config, base: Option<&str>) -> (r: String)
    ensures
        r@ == gtk4_text(*theme, *config, str_opt(base)),
{
    let mut css = base_css(theme, base);
    if config.remove_button_backgrounds {
        let f = button_removal_gtk4_css(theme);
        css.append(f.as_str());
    }
    if config.apply_accent_headerbar {
        let f = accent_window_gtk4_css(theme);
        css.append(f.as_str());
    }
    if config.sync_font {
        let f = font_css(theme);
        css.append(f.as_str());
    }
    assert(css@ =~= gtk4_text(*theme, *config, str_opt(base)));
    css
}

/// Renders the legacy-dialect stylesheet. `base` is as for the modern one.
pub fn generate_gtk3_css(theme: &CosmicTheme, config: &Config, base: Option<&str>) -> (r: String)
    ensures
        r@ == gtk3_text(*theme, *config, str_opt(base)),
{
    let mut css = base_css(theme, base);
    if config.remove_button_backgrounds {
        let f = button_removal_gtk4_css(theme);
        css.append(f.as_str());
        let g = button_removal_gtk3_css(theme);
        css.append(g.as_str());
    }
    if config.apply_accent_headerbar {
        let f = accent_window_gtk4_css(theme);
        css.append(f.as_str());
        let g = accent_window_gtk3_css(theme);
        css.append(g.as_str());
    }
    if config.sync_font {
        let f = font_css(theme);
        css.append(f.as_str());
    }
    assert(css@ =~= gtk3_text(*theme, *config, str_opt(base)));
    css
}

/// Generation is a function of its inputs: equal themes, switches and bases
/// give equal stylesheets in both dialects.
pub proof fn lemma_generation_deterministic(
    t1: CosmicTheme,
    t2: CosmicTheme,
    c1: Config,
    c2: Config,
    b1: Option<Seq<char>>,
    b2: Option<Seq<char>>,
)
    requires
        t1 == t2,
        c1 == c2,
        b1 == b2,
    ensures
        gtk4_text(t1, c1, b1) == gtk4_text(t2, c2, b2),
        gtk3_text(t1, c1, b1) == gtk3_text(t2, c2, b2),
{
}

/// With button removal, accent header controls and font sync all off, each
/// dialect's stylesheet is the base stylesheet alone.
pub proof fn lemma_no_fragments_is_base(t: CosmicTheme, c: Config, b: Option<Seq<char>>)
    requires
        !c.remove_button_backgrounds,
        !c.apply_accent_headerbar,
        !c.sync_font,
    ensures
        gtk4_text(t, c, b) == base_text(t, b),
        gtk3_text(t, c, b) == base_text(t, b),
{
    assert(gtk4_text(t, c, b) =~= base_text(t, b));
    assert(gtk3_text(t, c, b) =~= base_text(t, b));
}

/// A theme without a font yields no font rule: the stylesheets are the same
/// whether font sync is on or off.
pub proof fn lemma_no_font_no_font_rule(t: CosmicTheme, c: Config, b: Option<Seq<char>>)
    requires
        t.interface_font is None,
    ensures
        font_text(t) == Seq::<char>::empty(),
        gtk4_text(t, c, b) == gtk4_text(t, Config { sync_font: false, ..c }, b),
        gtk3_text(t, c, b) == gtk3_text(t, Config { sync_font: false, ..c }, b),
{
    assert(gtk4_text(t, c, b) =~= gtk4_text(t, Config { sync_font: false, ..c }, b));
    assert(gtk3_text(t, c, b) =~= gtk3_text(t, Config { sync_font: false, ..c }, b));
}

} // verus!
