//! The settings every operation reads: where the environments live and which
//! packages go into each new one.

use crate::notice::{Notice, NoticeView, Tone};
use crate::text::{clone_strings, texts};
use vstd::prelude::*;

verus! {

/// The settings of the tool. They are built once at startup and only read
/// afterwards.
#[derive(Clone, Debug)]
pub struct Settings {
    /// Directory under which every environment has its own directory. A
    /// leading `~` stands for the user's home directory.
    pub venvs_path: String,
    /// Packages installed into new environments that ask for the defaults.
    pub default_pkgs: Vec<String>,
}

/// The mathematical value of [`Settings`].
pub struct SettingsView {
    pub venvs_path: Seq<char>,
    pub default_pkgs: Seq<Seq<char>>,
}

impl View for Settings {
    type V = SettingsView;

    open spec fn view(&self) -> SettingsView {
        SettingsView { venvs_path: self.venvs_path@, default_pkgs: texts(self.default_pkgs@) }
    }
}

/// What came of reading the settings file.
#[derive(Clone, Debug)]
pub enum ConfigSource {
    /// The file is missing, unreadable or not valid TOML.
    Unavailable,
    /// The file was read, but its values do not have the expected types.
    Mistyped,
    /// The file was read; a key it does not hold is `None`.
    Parsed { venvs_path: Option<String>, default_pkgs: Option<Vec<String>> },
}

/// The settings used where the file gives none.
pub open spec fn default_settings() -> SettingsView {
    SettingsView { venvs_path: "~/pymngr/venvs"@, default_pkgs: Seq::empty() }
}

/// The settings that follow from what was read.
pub open spec fn settings_from(source: ConfigSource) -> SettingsView {
    match source {
        ConfigSource::Parsed { venvs_path, default_pkgs } => SettingsView {
            venvs_path: match venvs_path {
                Some(path) => path@,
                None => default_settings().venvs_path,
            },
            default_pkgs: match default_pkgs {
                Some(pkgs) => texts(pkgs@),
                None => default_settings().default_pkgs,
            },
        },
        _ => default_settings(),
    }
}

/// The status line shown for what was read, if any.
pub open spec fn source_notice(source: ConfigSource) -> Option<NoticeView> {
    match source {
        ConfigSource::Unavailable => Some(
            NoticeView { tone: Tone::Plain, text: "Settings.toml missing or invalid"@ },
        ),
        _ => None,
    }
}

/// The directory in which the settings file is looked for.
pub open spec fn config_dir_of(exe_dir: Option<String>) -> Seq<char> {
    match exe_dir {
        Some(dir) => dir@,
        None => "."@,
    }
}

/// The status line shown where the directory of the executable is unknown.
pub open spec fn config_dir_notice(exe_dir: Option<String>) -> Option<NoticeView> {
    match exe_dir {
        Some(_) => None,
        None => Some(
            NoticeView {
                tone: Tone::Plain,
                text: "Could not determine the executable directory"@,
            },
        ),
    }
}

/// The status line shown before the environments directory `dir` is
/// created, which happens where it is not present yet.
pub open spec fn folder_notice(dir: Seq<char>, present: bool) -> Option<NoticeView> {
    if present {
        None
    } else {
        Some(NoticeView { tone: Tone::Plain, text: "Creating venvs folder: "@ + dir })
    }
}

/// Whether `path` begins with a `~` that stands alone or is followed by a
/// path separator.
pub open spec fn tilde_expandable(path: Seq<char>) -> bool {
    &&& path.len() >= 1
    &&& path[0] == '~'
    &&& (path.len() == 1 || path[1] == '/' || path[1] == '\\')
}

/// Whether `tail` is what `full` ends with.
pub open spec fn ends_with(full: Seq<char>, tail: Seq<char>) -> bool {
    full.len() >= tail.len() && full.skip(full.len() - tail.len()) == tail
}

/// What can be said of every tilde expansion of `path`, whatever the home
/// directory is: either nothing was replaced, or the leading `~` gave way to
/// some directory and the rest of the path follows it unchanged.
pub open spec fn tilde_expansion(path: Seq<char>, expanded: Seq<char>) -> bool {
    expanded == path || (tilde_expandable(path) && ends_with(expanded, path.skip(1)))
}

/// The default location of the environments.
pub fn default_venv_path() -> (path: String)
    ensures
        path@ == "~/pymngr/venvs"@,
{
    String::from_str("~/pymngr/venvs")
}

/// Tilde expansion by `shellexpand::tilde`.
///
/// Trusted: the call replaces a leading `~` by the home directory of the
/// current user when the `~` is the whole input or is followed by `/` (on
/// Windows also `\`) and a home directory is known; every other input comes
/// back unchanged. The home directory depends on the machine, so the contract
/// only relates the shape of the result to the input.
#[verifier::external_body]
fn expand_tilde(path: &str) -> (expanded: String)
    ensures
        tilde_expansion(path@, expanded@),
{
    shellexpand::tilde(path).into_owned()
}

impl Default for Settings {
    fn default() -> (settings: Settings)
        ensures
            settings@ == default_settings(),
    {
        let settings = Settings { venvs_path: default_venv_path(), default_pkgs: Vec::new() };
        assert(texts(settings.default_pkgs@) =~= Seq::empty());
        settings
    }
}

impl Settings {
    /// Builds the settings from what was read of the settings file: a key the
    /// file gives is taken, every other falls back to its default. Only an
    /// unavailable file is worth a status line.
    pub fn init(source: ConfigSource) -> (loaded: (Settings, Option<Notice>))
        ensures
            loaded.0@ == settings_from(source),
            loaded.1.deep_view() == source_notice(source),
    {
        match source {
            ConfigSource::Unavailable => {
                let notice = Notice::new(Tone::Plain, "Settings.toml missing or invalid");
                (Settings::default(), Some(notice))
            },
            ConfigSource::Mistyped => (Settings::default(), None),
            ConfigSource::Parsed { venvs_path, default_pkgs } => {
                let venvs_path = match venvs_path {
                    Some(path) => path,
                    None => default_venv_path(),
                };
                let default_pkgs = match default_pkgs {
                    Some(pkgs) => pkgs,
                    None => {
                        let pkgs: Vec<String> = Vec::new();
                        assert(texts(pkgs@) =~= Seq::empty());
                        pkgs
                    },
                };
                (Settings { venvs_path, default_pkgs }, None)
            },
        }
    }

    /// The directory in which the settings file is looked for: the directory
    /// of the executable where it is known, the current directory otherwise.
    pub fn config_dir(exe_dir: Option<String>) -> (found: (String, Option<Notice>))
        ensures
            found.0@ == config_dir_of(exe_dir),
            found.1.deep_view() == config_dir_notice(exe_dir),
    {
        match exe_dir {
            Some(dir) => (dir, None),
            None => {
                let notice = Notice::new(
                    Tone::Plain,
                    "Could not determine the executable directory",
                );
                (String::from_str("."), Some(notice))
            },
        }
    }

    /// A copy of the settings.
    pub fn get_settings(&self) -> (copy: Settings)
        ensures
            copy@ == self@,
    {
        Settings {
            venvs_path: self.venvs_path.clone(),
            default_pkgs: clone_strings(&self.default_pkgs),
        }
    }

    /// The directory that holds the environments, with a leading `~`
    /// expanded. A path that does not begin with `~` is returned as it is.
    pub fn venvs_dir(&self) -> (dir: String)
        ensures
            tilde_expansion(self@.venvs_path, dir@),
            !tilde_expandable(self@.venvs_path) ==> dir@ == self@.venvs_path,
    {
        let path = self.venvs_path.as_str();
        if path.unicode_len() > 0 && path.get_char(0) == '~' {
            expand_tilde(path)
        } else {
            self.venvs_path.clone()
        }
    }

    /// Decides what is to be done about the environments directory `dir`
    /// before anything else runs: nothing where it exists; where it does not,
    /// the caller shows the returned line and creates the directory.
    pub fn validate_venv_path(dir: &str, present: bool) -> (notice: Option<Notice>)
        ensures
            notice.deep_view() == folder_notice(dir@, present),
    {
        if present {
            None
        } else {
            Some(Notice::labelled(Tone::Plain, "Creating venvs folder: ", dir))
        }
    }
}

} // verus!
