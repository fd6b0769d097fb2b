use vstd::prelude::*;

use crate::color::Rgba;

verus! {

/// The colour roles of one interactive element.
#[derive(Clone, Copy, Debug, PartialEq, Eq, Structural)]
pub struct Component {
    pub base: Rgba,
    pub hover: Rgba,
    pub pressed: Rgba,
    pub selected: Rgba,
    pub selected_text: Rgba,
    pub focus: Rgba,
    pub divider: Rgba,
    pub on: Rgba,
    pub disabled: Rgba,
    pub on_disabled: Rgba,
    pub border: Rgba,
    pub disabled_border: Rgba,
}

/// One layering tier: its base colour, its component palette and accents.
#[derive(Clone, Copy, Debug, PartialEq, Eq, Structural)]
pub struct Container {
    pub base: Rgba,
    pub component: Component,
    pub divider: Rgba,
    pub on: Rgba,
    pub small_widget: Rgba,
}

#[derive(Clone, Copy, Debug, PartialEq, Eq, Structural)]
pub enum FontWeight {
    Thin,
    ExtraLight,
    Light,
    Normal,
    Medium,
    Semibold,
    Bold,
    ExtraBold,
    Black,
}

#[derive(Clone, Copy, Debug, PartialEq, Eq, Structural)]
pub enum FontStretch {
    UltraCondensed,
    ExtraCondensed,
    Condensed,
    SemiCondensed,
    Normal,
    SemiExpanded,
    Expanded,
    ExtraExpanded,
    UltraExpanded,
}

#[derive(Clone, Copy, Debug, PartialEq, Eq, Structural)]
pub enum FontStyle {
    Normal,
    Italic,
    Oblique,
}

/// The interface font; only the family is rendered.
#[derive(Clone, Debug)]
pub struct FontConfig {
    pub family: String,
    pub weight: FontWeight,
    pub stretch: FontStretch,
    pub style: FontStyle,
}

/// The desktop theme: mode, semantic palettes, tiers and the optional font.
#[derive(Clone, Debug)]
pub struct CosmicTheme {
    pub is_dark: bool,
    pub accent: Component,
    pub destructive: Component,
    pub warning: Component,
    pub success: Component,
    pub background: Container,
    pub primary: Container,
    pub secondary: Container,
    pub interface_font: Option<FontConfig>,
}

/// What `ron::from_str::<bool>` makes of a text.
pub uninterp spec fn ron_bool_of(s: Seq<char>) -> Option<bool>;

/// Relies on `ron::from_str` decoding a `bool`; the outcome depends on the text alone.
#[verifier::external_body]
fn parse_ron_bool(s: &str) -> (r: Option<bool>)
    ensures
        r == ron_bool_of(s@),
{
    ron::from_str::<bool>(s).ok()
}

/// The mode marker read from a file's contents: dark unless it holds a valid `false`.
pub open spec fn mode_from(contents: Option<Seq<char>>) -> bool {
    match contents {
        Some(t) => match ron_bool_of(t) {
            Some(b) => b,
            None => true,
        },
        None => true,
    }
}

/// Reads the dark-mode marker; an absent or malformed marker means dark.
pub fn is_dark_from(contents: Option<&str>) -> (r: bool)
    ensures
        r == mode_from(
            match contents {
                Some(t) => Some(t@),
                None => None,
            },
        ),
{
    match contents {
        Some(t) => match parse_ron_bool(t) {
            Some(b) => b,
            None => true,
        },
        None => true,
    }
}

/// The dark-mode marker given the marker's already-decoded value.
pub fn is_dark_from_decoded(decoded: Option<bool>) -> (r: bool)
    ensures
        r == match decoded {
            Some(b) => b,
            None => true,
        },
{
    match decoded {
        Some(b) => b,
        None => true,
    }
}

pub open spec fn theme_name(is_dark: bool) -> Seq<char> {
    if is_dark {
        "com.system76.CosmicTheme.Dark"@
    } else {
        "com.system76.CosmicTheme.Light"@
    }
}

/// The directory that holds the theme records of one mode.
pub open spec fn theme_dir_of(config_dir: Seq<char>, is_dark: bool) -> Seq<char> {
    config_dir + "/cosmic/"@ + theme_name(is_dark) + "/v1"@
}

/// Path of the dark-mode marker under a configuration directory.
pub fn mode_marker_path(config_dir: &str) -> (r: String)
    ensures
        r@ == config_dir@ + "/cosmic/com.system76.CosmicTheme.Mode/v1/is_dark"@,
{
    let mut s = config_dir.to_owned();
    s.append("/cosmic/com.system76.CosmicTheme.Mode/v1/is_dark");
    s
}

/// Path of the interface font record under a configuration directory.
pub fn font_record_path(config_dir: &str) -> (r: String)
    ensures
        r@ == config_dir@ + "/cosmic/com.system76.CosmicTk/v1/interface_font"@,
{
    let mut s = config_dir.to_owned();
    s.append("/cosmic/com.system76.CosmicTk/v1/interface_font");
    s
}

/// Directory of the theme records for a mode.
pub fn theme_dir_for(config_dir: &str, is_dark: bool) -> (r: String)
    ensures
        r@ == theme_dir_of(config_dir@, is_dark),
{
    let mut s = config_dir.to_owned();
    s.append("/cosmic/");
    if is_dark {
        s.append("com.system76.CosmicTheme.Dark");
    } else {
        s.append("com.system76.CosmicTheme.Light");
    }
    s.append("/v1");
    assert(s@ =~= theme_dir_of(config_dir@, is_dark));
    s
}

impl CosmicTheme {
    /// Assembles a theme from its decoded records. Every required record must
    /// be present: otherwise there is no theme. The font is optional.
    pub fn load(
        is_dark: bool,
        accent: Option<Component>,
        destructive: Option<Component>,
        warning: Option<Component>,
        success: Option<Component>,
        background: Option<Container>,
        primary: Option<Container>,
        secondary: Option<Container>,
        interface_font: Option<FontConfig>,
    ) -> (r: Option<CosmicTheme>)
        ensures
            r.is_some() <==> (accent.is_some() && destructive.is_some() && warning.is_some()
                && success.is_some() && background.is_some() && primary.is_some()
                && secondary.is_some()),
            r matches Some(t) ==> (t.is_dark == is_dark && Some(t.accent) == accent && Some(
                t.destructive,
            ) == destructive && Some(t.warning) == warning && Some(t.success) == success
                && Some(t.background) == background && Some(t.primary) == primary && Some(
                t.secondary,
            ) == secondary && t.interface_font == interface_font),
    {
        match (accent, destructive, warning, success, background, primary, secondary) {
            (Some(a), Some(d), Some(w), Some(s), Some(bg), Some(p), Some(sec)) => Some(
                CosmicTheme {
                    is_dark,
                    accent: a,
                    destructive: d,
                    warning: w,
                    success: s,
                    background: bg,
                    primary: p,
                    secondary: sec,
                    interface_font,
                },
            ),
            _ => None,
        }
    }

    /// The directory holding this theme's records, under `config_dir`.
    pub fn theme_config_dir(&self, config_dir: &str) -> (r: String)
        ensures
            r@ == theme_dir_of(config_dir@, self.is_dark),
    {
        theme_dir_for(config_dir, self.is_dark)
    }
}

} // verus!
