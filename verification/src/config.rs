//! The application's settings, where its files lie next to the executable,
//! and the start-with-the-system switch.

use vstd::prelude::*;

verus! {

/// The settings of the application, as kept in `config.json`.
#[derive(Clone, Copy, Debug, PartialEq, Eq, Structural)]
pub struct Config {
    /// Start with the system.
    pub auto_start: bool,
    /// Start minimized to the tray.
    pub start_minimize: bool,
    /// Seconds between two refreshes of the user interface.
    pub ui_update: u8,
    /// Seconds between two rounds of the monitoring service.
    pub service_update: u8,
    /// Whether the battery history is recorded.
    pub record_battery_history: bool,
}

impl Default for Config {
    /// No autostart, not minimized, the interface refreshed every two seconds,
    /// the service run every second, and the history recorded.
    fn default() -> (c: Self)
        ensures
            c == (Config {
                auto_start: false,
                start_minimize: false,
                ui_update: 2,
                service_update: 1,
                record_battery_history: true,
            }),
    {
        Config {
            auto_start: false,
            start_minimize: false,
            ui_update: 2,
            service_update: 1,
            record_battery_history: true,
        }
    }
}

/// Whether `c` separates the parts of a path, `sep` being the platform's own
/// separator; `/` separates them everywhere.
pub open spec fn is_path_separator(c: char, sep: char) -> bool {
    c == sep || c == '/'
}

/// `name` put below the directory `dir`: a separator is put between them
/// unless `dir` is empty or already ends with one.
pub open spec fn joined_path(dir: Seq<char>, sep: char, name: Seq<char>) -> Seq<char> {
    if dir.len() == 0 || is_path_separator(dir.last(), sep) {
        dir + name
    } else {
        dir + seq![sep] + name
    }
}

/// `std::path::MAIN_SEPARATOR`: the contract claims what its documentation
/// says, that it is `\` on Windows and `/` elsewhere; which of the two is left
/// to the platform.
#[verifier::external_body]
pub(crate) fn main_separator() -> (c: char)
    ensures
        c == '/' || c == '\\',
{
    std::path::MAIN_SEPARATOR
}

/// The relative path `name` put below the directory `dir`, with `sep` as the
/// platform's separator, as `Path::join` puts a plain file name below a directory.
pub fn join_path(dir: &str, sep: char, name: &str) -> (p: String)
    requires
        sep == '/' || sep == '\\',
    ensures
        p@ == joined_path(dir@, sep, name@),
{
    let n = dir.unicode_len();
    let mut p = String::new();
    p.append(dir);
    if n > 0 {
        let last = dir.get_char(n - 1);
        if last != sep && last != '/' {
            proof {
                reveal_strlit("/");
                reveal_strlit("\\");
            }
            if sep == '/' {
                p.append("/");
            } else {
                p.append("\\");
            }
        }
    }
    p.append(name);
    assert(p@ =~= joined_path(dir@, sep, name@));
    p
}

/// The file `name` in the directory `exe_dir` of the executable, joined with
/// the platform's separator.
pub fn exe_dir_file(exe_dir: &str, name: &str) -> (p: String)
    ensures
        exists|sep: char|
            (sep == '/' || sep == '\\') && p@ == joined_path(exe_dir@, sep, name@),
{
    let sep = main_separator();
    join_path(exe_dir, sep, name)
}

/// The path of `config.json` in the directory `exe_dir` of the executable.
pub fn get_config_file_path(exe_dir: &str) -> (p: String)
    ensures
        exists|sep: char|
            (sep == '/' || sep == '\\') && p@ == joined_path(exe_dir@, sep, "config.json"@),
{
    exe_dir_file(exe_dir, "config.json")
}

/// What to do to the system's autostart entry.
#[derive(Clone, Copy, Debug, PartialEq, Eq, Structural)]
pub enum AutostartAction {
    Enable,
    Disable,
    Keep,
}

/// The autostart entry is left alone in a development build; otherwise it is
/// enabled when wanted and missing, disabled when present and not wanted.
pub open spec fn autostart_decision(is_dev: bool, want: bool, enabled: bool) -> AutostartAction {
    if is_dev {
        AutostartAction::Keep
    } else if want && !enabled {
        AutostartAction::Enable
    } else if !want && enabled {
        AutostartAction::Disable
    } else {
        AutostartAction::Keep
    }
}

/// Whether the entry is enabled after `action` is taken on it.
pub open spec fn autostart_after(enabled: bool, action: AutostartAction) -> bool {
    match action {
        AutostartAction::Enable => true,
        AutostartAction::Disable => false,
        AutostartAction::Keep => enabled,
    }
}

/// What `set_autostart` does to the entry, given whether this is a development
/// build, whether autostart is wanted, and whether the entry is enabled.
pub fn autostart_action(is_dev: bool, want: bool, enabled: bool) -> (a: AutostartAction)
    ensures
        a == autostart_decision(is_dev, want, enabled),
{
    if is_dev {
        AutostartAction::Keep
    } else if want && !enabled {
        AutostartAction::Enable
    } else if !want && enabled {
        AutostartAction::Disable
    } else {
        AutostartAction::Keep
    }
}

/// Outside a development build, the entry ends up enabled exactly when
/// autostart is wanted; in one it is never touched.
pub proof fn lemma_autostart_reaches_wish(is_dev: bool, want: bool, enabled: bool)
    ensures
        !is_dev ==> autostart_after(enabled, autostart_decision(is_dev, want, enabled)) == want,
        is_dev ==> autostart_after(enabled, autostart_decision(is_dev, want, enabled)) == enabled,
{
}

/// Taking the action a second time asks for nothing more.
pub proof fn lemma_autostart_settles(is_dev: bool, want: bool, enabled: bool)
    ensures
        autostart_decision(
            is_dev,
            want,
            autostart_after(enabled, autostart_decision(is_dev, want, enabled)),
        ) == AutostartAction::Keep,
{
}

} // verus!
