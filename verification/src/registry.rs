//! Registry entries of `HKCU\Software\Microsoft\Windows\CurrentVersion\Lxss`
//! (each distribution's GUID, base path, version, default UID, flags and vhdx
//! file) and the paths derived from them. Reading the hive is done by the
//! application; this module holds the entries and the pure derivations.
use vstd::prelude::*;

use crate::text::{copy_range, from_chars, join_path, join_path_exec, starts_with, starts_with_exec, to_chars};

verus! {

/// A distribution entry read from the `Lxss` registry hive.
#[derive(Debug, PartialEq, Eq)]
pub struct LxssEntry {
    pub guid: String,
    pub name: String,
    /// Install base path (Windows path string).
    pub base_path: String,
    pub version: u8,
    pub state: u32,
    pub default_uid: u32,
    pub flags: u32,
    pub vhd_file: Option<String>,
    pub flavor: Option<String>,
}

/// The virtual disk path of an entry: its base path joined with the vhdx file
/// name (`ext4.vhdx` by default); `None` without a base path.
pub open spec fn vhd_path_spec(e: LxssEntry) -> Option<Seq<char>> {
    if e.base_path@.len() == 0 {
        None
    } else {
        let file = match e.vhd_file {
            Some(f) => f@,
            None => "ext4.vhdx"@,
        };
        Some(join_path(e.base_path@, file))
    }
}

/// Full path to a distribution's virtual disk, derived from its base path and
/// vhdx file name (defaulting to `ext4.vhdx`).
pub fn vhd_path_of(entry: &LxssEntry) -> (r: Option<String>)
    ensures
        match r {
            Some(p) => vhd_path_spec(*entry) == Some(p@),
            None => vhd_path_spec(*entry).is_none(),
        },
{
    if entry.base_path.as_str().unicode_len() == 0 {
        return None;
    }
    let p = match &entry.vhd_file {
        Some(f) => join_path_exec(entry.base_path.as_str(), f.as_str()),
        None => join_path_exec(entry.base_path.as_str(), "ext4.vhdx"),
    };
    Some(p)
}

/// `path` without a leading `\\?\` long-path prefix.
pub open spec fn strip_unc_spec(path: Seq<char>) -> Seq<char> {
    if starts_with(path, "\\\\?\\"@) {
        path.skip(4)
    } else {
        path
    }
}

/// BasePath is sometimes stored with the `\\?\` long-path prefix; strip it for
/// display and filesystem use.
pub fn strip_unc_prefix(path: String) -> (r: String)
    ensures
        r@ == strip_unc_spec(path@),
{
    let p = to_chars(path.as_str());
    let prefix = to_chars("\\\\?\\");
    proof {
        reveal_strlit("\\\\?\\");
    }
    if starts_with_exec(p.as_slice(), prefix.as_slice()) {
        from_chars(copy_range(p.as_slice(), 4, p.len()).as_slice())
    } else {
        path
    }
}

} // verus!
