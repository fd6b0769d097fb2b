use vstd::prelude::*;

use crate::color::{dec_digits, push_decimal};
use crate::distribute::ApplyResult;

verus! {

/// The user's switches, each gating one behaviour of a synchronization pass.
#[derive(Clone, Copy, Debug, PartialEq, Eq, Structural)]
pub struct Config {
    pub remove_button_backgrounds: bool,
    pub apply_to_flatpaks: bool,
    pub sync_enabled: bool,
    pub apply_accent_headerbar: bool,
    pub sync_font: bool,
    pub fix_flatpak_fonts: bool,
}

impl Default for Config {
    /// Every switch on.
    fn default() -> (r: Config)
        ensures
            r.remove_button_backgrounds && r.apply_to_flatpaks && r.sync_enabled
                && r.apply_accent_headerbar && r.sync_font && r.fix_flatpak_fonts,
    {
        Config {
            remove_button_backgrounds: true,
            apply_to_flatpaks: true,
            sync_enabled: true,
            apply_accent_headerbar: true,
            sync_font: true,
            fix_flatpak_fonts: true,
        }
    }
}

/// What the settings surface reports.
#[derive(Clone, Debug)]
pub enum Message {
    ToggleSync(bool),
    ToggleButtonBackgrounds(bool),
    ToggleFlatpaks(bool),
    ToggleAccentHeaderbar(bool),
    ToggleSyncFont(bool),
    ToggleFlatpakFonts(bool),
    ApplyNow,
    ApplyResult(String),
    Restore,
    RestoreResult(String),
    ThemeChanged,
}

/// The background work a message asks for.
#[derive(Clone, Copy, Debug, PartialEq, Eq, Structural)]
pub enum Task {
    Nothing,
    Apply,
    Restore,
}

/// The settings surface's state: the switches, the last status, and whether
/// a pass is running.
pub struct App {
    pub config: Config,
    pub status_text: String,
    pub applying: bool,
}

/// The configuration after a switch message; other messages leave it.
pub open spec fn config_after(c: Config, m: Message) -> Config {
    match m {
        Message::ToggleSync(b) => Config { sync_enabled: b, ..c },
        Message::ToggleButtonBackgrounds(b) => Config { remove_button_backgrounds: b, ..c },
        Message::ToggleFlatpaks(b) => Config { apply_to_flatpaks: b, ..c },
        Message::ToggleAccentHeaderbar(b) => Config { apply_accent_headerbar: b, ..c },
        Message::ToggleSyncFont(b) => Config { sync_font: b, ..c },
        Message::ToggleFlatpakFonts(b) => Config { fix_flatpak_fonts: b, ..c },
        _ => c,
    }
}

pub open spec fn is_toggle(m: Message) -> bool {
    ||| m is ToggleSync
    ||| m is ToggleButtonBackgrounds
    ||| m is ToggleFlatpaks
    ||| m is ToggleAccentHeaderbar
    ||| m is ToggleSyncFont
    ||| m is ToggleFlatpakFonts
}

/// The task a message starts, given the configuration after it.
pub open spec fn task_for(c: Config, m: Message) -> Task {
    match m {
        Message::ApplyNow => Task::Apply,
        Message::Restore => Task::Restore,
        Message::ApplyResult(_) | Message::RestoreResult(_) => Task::Nothing,
        _ => if config_after(c, m).sync_enabled {
            Task::Apply
        } else {
            Task::Nothing
        },
    }
}

impl App {
    fn start_apply(&mut self)
        ensures
            final(self).applying,
            final(self).status_text@ == "Applying theme..."@,
            final(self).config == old(self).config,
    {
        self.applying = true;
        self.status_text = "Applying theme...".to_owned();
    }

    /// The initial state; a pass starts at once when sync is on.
    pub fn init(config: Config) -> (r: (App, Task))
        ensures
            r.0.config == config,
            r.1 == if config.sync_enabled {
                Task::Apply
            } else {
                Task::Nothing
            },
            r.1 == Task::Apply ==> r.0.applying && r.0.status_text@ == "Applying theme..."@,
            r.1 == Task::Nothing ==> !r.0.applying && r.0.status_text@ == "Ready"@,
    {
        let mut app = App { config, status_text: "Ready".to_owned(), applying: false };
        if app.config.sync_enabled {
            app.start_apply();
            (app, Task::Apply)
        } else {
            (app, Task::Nothing)
        }
    }

    /// Handles a message. Returns whether the configuration must be saved and
    /// the task to run.
    pub fn update(&mut self, message: Message) -> (r: (bool, Task))
        ensures
            final(self).config == config_after(old(self).config, message),
            r.0 == is_toggle(message),
            r.1 == task_for(old(self).config, message),
            r.1 == Task::Apply ==> final(self).applying && final(self).status_text@
                == "Applying theme..."@,
            r.1 == Task::Restore ==> final(self).applying && final(self).status_text@
                == "Restoring..."@,
            message matches Message::ApplyResult(s) ==> !final(self).applying
                && final(self).status_text == s,
            message matches Message::RestoreResult(s) ==> !final(self).applying
                && final(self).status_text == s,
            r.1 == Task::Nothing && !(message is ApplyResult) && !(message is RestoreResult) ==> (
            final(self).applying == old(self).applying && final(self).status_text
                == old(self).status_text),
    {
        let save = match &message {
            Message::ToggleSync(_) | Message::ToggleButtonBackgrounds(_) | Message::ToggleFlatpaks(_)
            | Message::ToggleAccentHeaderbar(_) | Message::ToggleSyncFont(_)
            | Message::ToggleFlatpakFonts(_) => true,
            _ => false,
        };
        match message {
            Message::ToggleSync(b) => {
                self.config.sync_enabled = b;
            },
            Message::ToggleButtonBackgrounds(b) => {
                self.config.remove_button_backgrounds = b;
            },
            Message::ToggleFlatpaks(b) => {
                self.config.apply_to_flatpaks = b;
            },
            Message::ToggleAccentHeaderbar(b) => {
                self.config.apply_accent_headerbar = b;
            },
            Message::ToggleSyncFont(b) => {
                self.config.sync_font = b;
            },
            Message::ToggleFlatpakFonts(b) => {
                self.config.fix_flatpak_fonts = b;
            },
            Message::ApplyNow => {
                self.start_apply();
                return (false, Task::Apply);
            },
            Message::ApplyResult(s) | Message::RestoreResult(s) => {
                self.status_text = s;
                self.applying = false;
                return (false, Task::Nothing);
            },
            Message::Restore => {
                self.applying = true;
                self.status_text = "Restoring...".to_owned();
                return (false, Task::Restore);
            },
            Message::ThemeChanged => {},
        }
        if self.config.sync_enabled {
            self.start_apply();
            (save, Task::Apply)
        } else {
            (save, Task::Nothing)
        }
    }
}

pub open spec fn native_line(label: Seq<char>, r: Result<String, String>) -> Seq<char> {
    label + match r {
        Ok(_) => "OK"@,
        Err(e) => e@,
    } + "\n"@
}

/// The status shown after a pass.
pub open spec fn apply_status_text(r: ApplyResult, c: Config) -> Seq<char> {
    native_line("GTK4: "@, r.native_gtk4) + native_line("GTK3: "@, r.native_gtk3) + if c.apply_to_flatpaks {
        "Flatpak: "@ + dec_digits(r.flatpak_count as nat) + " apps updated"@ + if r.flatpak_errors@.len() > 0 {
            " ("@ + dec_digits(r.flatpak_errors@.len()) + " errors)"@
        } else {
            Seq::empty()
        }
    } else {
        Seq::empty()
    }
}

fn push_native_line(s: &mut String, label: &str, r: &Result<String, String>)
    ensures
        final(s)@ == old(s)@ + native_line(label@, *r),
{
    s.append(label);
    match r {
        Ok(_) => s.append("OK"),
        Err(e) => s.append(e.as_str()),
    }
    s.append("\n");
    assert(s@ =~= old(s)@ + native_line(label@, *r));
}

/// Describes the outcome of a pass for the status line.
pub fn apply_status(result: &ApplyResult, config: &Config) -> (r: String)
    ensures
        r@ == apply_status_text(*result, *config),
{
    let mut s = String::new();
    push_native_line(&mut s, "GTK4: ", &result.native_gtk4);
    push_native_line(&mut s, "GTK3: ", &result.native_gtk3);
    if config.apply_to_flatpaks {
        s.append("Flatpak: ");
        push_decimal(&mut s, result.flatpak_count as u64);
        s.append(" apps updated");
        if result.flatpak_errors.len() > 0 {
            s.append(" (");
            push_decimal(&mut s, result.flatpak_errors.len() as u64);
            s.append(" errors)");
        }
    }
    assert(s@ =~= apply_status_text(*result, *config));
    s
}

/// Describes the outcome of a restore for the status line.
pub fn restore_status(result: &Result<String, String>) -> (r: String)
    ensures
        r@ == match *result {
            Ok(m) => "Restored: "@ + m@,
            Err(e) => "Error: "@ + e@,
        },
{
    match result {
        Ok(m) => {
            let mut s = "Restored: ".to_owned();
            s.append(m.as_str());
            s
        },
        Err(e) => {
            let mut s = "Error: ".to_owned();
            s.append(e.as_str());
            s
        },
    }
}

} // verus!
