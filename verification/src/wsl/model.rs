//! Core WSL data types (UI-independent).
use vstd::prelude::*;

verus! {

/// Running state of a distribution. Determined without parsing localized
/// status strings (see `wsl::collect`).
#[derive(Debug, Clone, Copy, PartialEq, Eq, Structural)]
pub enum DistroState {
    Running,
    Stopped,
    Installing,
    Unknown,
}

/// The glyph shown for each state.
pub open spec fn state_glyph(s: DistroState) -> char {
    match s {
        DistroState::Running => '●',
        DistroState::Stopped => '○',
        DistroState::Installing => '◐',
        DistroState::Unknown => '?',
    }
}

impl DistroState {
    /// A compact glyph for the state column.
    pub fn glyph(self) -> (r: char)
        ensures
            r == state_glyph(self),
    {
        match self {
            DistroState::Running => '●',
            DistroState::Stopped => '○',
            DistroState::Installing => '◐',
            DistroState::Unknown => '?',
        }
    }
}

/// A distribution available to install, from `wsl --list --online`.
#[derive(Debug, PartialEq, Eq)]
pub struct OnlineDistro {
    /// The install identifier (passed to `wsl --install -d`).
    pub name: String,
    /// The human-friendly name.
    pub friendly: String,
}

impl Clone for OnlineDistro {
    fn clone(&self) -> (r: Self)
        ensures
            r == *self,
    {
        OnlineDistro { name: self.name.clone(), friendly: self.friendly.clone() }
    }
}

/// A registered WSL distribution with metadata merged from `wsl.exe`, the
/// running-distro set, and the registry. Paths are Windows path strings.
#[derive(Debug, PartialEq, Eq)]
pub struct Distro {
    /// Distribution name (e.g. `Debian`).
    pub name: String,
    /// Running/stopped state.
    pub state: DistroState,
    /// WSL major version (1 or 2).
    pub version: u8,
    /// Whether this is the default distribution.
    pub is_default: bool,
    /// Registry GUID, if found.
    pub guid: Option<String>,
    /// Install base path from the registry.
    pub base_path: Option<String>,
    /// Full path to the backing `ext4.vhdx`, if known.
    pub vhd_path: Option<String>,
    /// Size of the vhdx on disk, in bytes.
    pub disk_bytes: Option<u64>,
    /// In-distro filesystem usage `(used, total)` in bytes, once sampled.
    pub inner_disk: Option<(u64, u64)>,
}

/// A copy of an optional string.
pub fn clone_opt_string(s: &Option<String>) -> (r: Option<String>)
    ensures
        r == *s,
{
    match s {
        Some(x) => Some(x.clone()),
        None => None,
    }
}

impl Clone for Distro {
    fn clone(&self) -> (r: Self)
        ensures
            r == *self,
    {
        Distro {
            name: self.name.clone(),
            state: self.state,
            version: self.version,
            is_default: self.is_default,
            guid: clone_opt_string(&self.guid),
            base_path: clone_opt_string(&self.base_path),
            vhd_path: clone_opt_string(&self.vhd_path),
            disk_bytes: self.disk_bytes,
            inner_disk: self.inner_disk,
        }
    }
}

} // verus!
