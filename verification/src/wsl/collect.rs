//! Merge parsed `wsl -l -v` rows, the running-distro set and registry
//! metadata into [`Distro`] records. Pure: disk sizes are filled in by the
//! application, which owns the filesystem.
use vstd::prelude::*;

use crate::registry::{vhd_path_of, vhd_path_spec, LxssEntry};
use crate::wsl::model::{Distro, DistroState};
use crate::wsl::parse::RawDistroRow;

verus! {

/// Whether `name` is one of `names` (compared by content).
pub open spec fn has_name(names: Seq<String>, name: Seq<char>) -> bool {
    exists|i: int| 0 <= i < names.len() && #[trigger] names[i]@ == name
}

/// The first registry entry named `name`.
pub open spec fn entry_named(l: Seq<LxssEntry>, name: Seq<char>) -> Option<LxssEntry>
    decreases l.len(),
{
    if l.len() == 0 {
        None
    } else if l[0].name@ == name {
        Some(l[0])
    } else {
        entry_named(l.drop_first(), name)
    }
}

/// The merged record for one row.
pub open spec fn merged(row: RawDistroRow, running: Seq<String>, lxss: Seq<LxssEntry>) -> Distro {
    let e = entry_named(lxss, row.name@);
    Distro {
        name: row.name,
        state: if has_name(running, row.name@) {
            DistroState::Running
        } else {
            DistroState::Stopped
        },
        version: row.version,
        is_default: row.is_default,
        guid: match e {
            Some(x) => Some(x.guid),
            None => None,
        },
        base_path: match e {
            Some(x) => Some(x.base_path),
            None => None,
        },
        vhd_path: None,
        disk_bytes: None,
        inner_disk: None,
    }
}

/// The vhdx path of the entry merged into a row.
pub open spec fn merged_vhd(row_name: Seq<char>, lxss: Seq<LxssEntry>) -> Option<Seq<char>> {
    match entry_named(lxss, row_name) {
        Some(x) => vhd_path_spec(x),
        None => None,
    }
}

fn contains_name(names: &[String], name: &String) -> (r: bool)
    ensures
        r == has_name(names@, name@),
{
    let mut i: usize = 0;
    while i < names.len()
        invariant
            i <= names@.len(),
            forall|j: int| 0 <= j < i ==> #[trigger] names@[j]@ != name@,
        decreases names@.len() - i,
    {
        if names[i] == *name {
            return true;
        }
        i = i + 1;
    }
    false
}

fn find_entry(lxss: &[LxssEntry], name: &String) -> (r: Option<usize>)
    ensures
        match r {
            Some(i) => i < lxss@.len() && entry_named(lxss@, name@) == Some(lxss@[i as int]),
            None => entry_named(lxss@, name@).is_none(),
        },
{
    let mut i: usize = 0;
    assert(lxss@.skip(0) == lxss@);
    while i < lxss.len()
        invariant
            i <= lxss@.len(),
            entry_named(lxss@, name@) == entry_named(lxss@.skip(i as int), name@),
        decreases lxss@.len() - i,
    {
        assert(lxss@.skip(i as int)[0] == lxss@[i as int]);
        assert(lxss@.skip(i as int).drop_first() == lxss@.skip(i + 1));
        if lxss[i].name == *name {
            return Some(i);
        }
        i = i + 1;
    }
    None
}

/// Merge parsed rows with the running set and registry entries. Disk sizes
/// are left as `None`.
pub fn collect_distros(rows: Vec<RawDistroRow>, running: &[String], lxss: &[LxssEntry]) -> (r: Vec<
    Distro,
>)
    ensures
        r@.len() == rows@.len(),
        forall|i: int|
            0 <= i < rows@.len() ==> {
                let d = #[trigger] r@[i];
                &&& d == (Distro { vhd_path: d.vhd_path, ..merged(rows@[i], running@, lxss@) })
                &&& match d.vhd_path {
                    Some(p) => merged_vhd(rows@[i].name@, lxss@) == Some(p@),
                    None => merged_vhd(rows@[i].name@, lxss@).is_none(),
                }
            },
{
    let mut out: Vec<Distro> = Vec::new();
    let mut i: usize = 0;
    while i < rows.len()
        invariant
            i <= rows@.len(),
            out@.len() == i,
            forall|k: int|
                0 <= k < i ==> {
                    let d = #[trigger] out@[k];
                    &&& d == (Distro { vhd_path: d.vhd_path, ..merged(rows@[k], running@, lxss@) })
                    &&& match d.vhd_path {
                        Some(p) => merged_vhd(rows@[k].name@, lxss@) == Some(p@),
                        None => merged_vhd(rows@[k].name@, lxss@).is_none(),
                    }
                },
        decreases rows@.len() - i,
    {
        let row = &rows[i];
        let state = if contains_name(running, &row.name) {
            DistroState::Running
        } else {
            DistroState::Stopped
        };
        let (guid, base_path, vhd_path) = match find_entry(lxss, &row.name) {
            Some(k) => {
                let e = &lxss[k];
                (Some(e.guid.clone()), Some(e.base_path.clone()), vhd_path_of(e))
            },
            None => (None, None, None),
        };
        out.push(
            Distro {
                name: row.name.clone(),
                state,
                version: row.version,
                is_default: row.is_default,
                guid,
                base_path,
                vhd_path,
                disk_bytes: None,
                inner_disk: None,
            },
        );
        i = i + 1;
    }
    out
}

} // verus!
