//! Preferences: the persisted user settings and the values derived from them.
//! Reading and writing `config.toml` happens in the application shell; the
//! library holds the settings and the rules that interpret them.
use vstd::prelude::*;

use crate::i18n::{lang_from_locale, lang_from_locale_spec, Lang};
use crate::text::{join_path, join_path_exec};

verus! {

/// Which navigation keys are active in lists.
#[derive(Debug, Clone, Copy, PartialEq, Eq, Structural)]
pub enum KeybindStyle {
    /// Both arrow keys and `j`/`k`.
    Both,
    /// Arrow keys only.
    ArrowsOnly,
    /// `j`/`k` only.
    VimOnly,
}

impl KeybindStyle {
    /// Whether the arrow keys move the selection.
    pub fn arrows_enabled(self) -> (r: bool)
        ensures
            r == !(self is VimOnly),
    {
        !matches!(self, KeybindStyle::VimOnly)
    }

    /// Whether `j`/`k` move the selection.
    pub fn vim_enabled(self) -> (r: bool)
        ensures
            r == !(self is ArrowsOnly),
    {
        !matches!(self, KeybindStyle::ArrowsOnly)
    }
}

/// How `Enter` opens a shell.
#[derive(Debug, Clone, Copy, PartialEq, Eq, Structural)]
pub enum ShellLaunch {
    /// Suspend the TUI and run the shell in this terminal.
    Inline,
    /// Open the shell in a new Windows Terminal tab.
    NewTab,
}

impl ShellLaunch {
    /// The other launch mode (used by `Shift+Enter`).
    pub fn other(self) -> (r: ShellLaunch)
        ensures
            r != self,
    {
        match self {
            ShellLaunch::Inline => ShellLaunch::NewTab,
            ShellLaunch::NewTab => ShellLaunch::Inline,
        }
    }
}

/// Persisted user preferences.
#[derive(Debug, Clone, PartialEq, Eq)]
pub struct Prefs {
    /// UI language. `None` means auto-detect from the environment.
    pub lang: Option<Lang>,
    /// Polling interval for list/metrics refresh, in seconds.
    pub poll_interval_secs: u64,
    /// Number of samples retained for the sparklines.
    pub history_len: usize,
    /// Which navigation keys are active.
    pub keybind_style: KeybindStyle,
    /// What `Enter` does on a distro.
    pub default_shell_launch: ShellLaunch,
    /// Root folder for managed archives and imported distros (`None` means the
    /// default under the user profile).
    pub manage_dir: Option<String>,
}

impl Default for Prefs {
    fn default() -> (r: Self)
        ensures
            r.lang is None,
            r.poll_interval_secs == 2,
            r.history_len == 60,
            r.keybind_style == KeybindStyle::Both,
            r.default_shell_launch == ShellLaunch::Inline,
            r.manage_dir is None,
    {
        Prefs {
            lang: None,
            poll_interval_secs: 2,
            history_len: 60,
            keybind_style: KeybindStyle::Both,
            default_shell_launch: ShellLaunch::Inline,
            manage_dir: None,
        }
    }
}

/// The default managed-folder name under the user profile.
pub open spec fn default_manage_leaf() -> Seq<char> {
    seq!['w', 's', 'l', '-', 'm', 'a', 'n', 'a', 'g', 'e', 'r']
}

impl Prefs {
    /// The effective language: the saved preference, else the one the locale
    /// variables (`LANG`, `LC_ALL`, `LC_MESSAGES`) pick.
    pub fn effective_lang(&self, locale_vars: &[Option<String>]) -> (r: Lang)
        ensures
            r == match self.lang {
                Some(l) => l,
                None => lang_from_locale_spec(locale_vars@),
            },
    {
        match self.lang {
            Some(l) => l,
            None => lang_from_locale(locale_vars),
        }
    }

    /// The polling interval, clamped to at least one second.
    pub fn poll_interval(&self) -> (r: u64)
        ensures
            r == if self.poll_interval_secs >= 1 {
                self.poll_interval_secs
            } else {
                1
            },
    {
        if self.poll_interval_secs >= 1 {
            self.poll_interval_secs
        } else {
            1
        }
    }

    /// The effective managed-folder root: the configured path, else
    /// `<user_profile>\wsl-manager`.
    pub fn manage_dir(&self, user_profile: &str) -> (r: String)
        ensures
            r@ == match self.manage_dir {
                Some(d) => d@,
                None => join_path(user_profile@, default_manage_leaf()),
            },
    {
        match &self.manage_dir {
            Some(d) => d.clone(),
            None => {
                let leaf = "wsl-manager";
                proof {
                    reveal_strlit("wsl-manager");
                }
                assert(leaf@ == default_manage_leaf());
                join_path_exec(user_profile, leaf)
            },
        }
    }
}

} // verus!
