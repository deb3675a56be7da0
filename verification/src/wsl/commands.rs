//! The `wsl.exe` argument lists for each operation. Running the process is the
//! application's job; which flags an operation takes is decided here.
use vstd::prelude::*;

use crate::app::message::{LifecycleOp, LifecycleView};
use crate::manage::{format_arg, ExportFormat};

verus! {

/// The characters of each argument.
pub open spec fn arg_list(v: Seq<String>) -> Seq<Seq<char>> {
    v.map_values(|s: String| s@)
}

/// The arguments of a lifecycle operation.
pub open spec fn lifecycle_args_spec(op: LifecycleView) -> Seq<Seq<char>> {
    match op {
        LifecycleView::Start(n) => seq!["-d"@, n, "--"@, "true"@],
        LifecycleView::Terminate(n) => seq!["--terminate"@, n],
        LifecycleView::Shutdown => seq!["--shutdown"@],
        LifecycleView::SetDefault(n) => seq!["--set-default"@, n],
        LifecycleView::Unregister(n) => seq!["--unregister"@, n],
    }
}

fn s(lit: &str) -> (r: String)
    ensures
        r@ == lit@,
{
    lit.to_owned()
}

/// `wsl.exe` arguments for a lifecycle operation: `-d <name> -- true` boots,
/// `--terminate`, `--shutdown`, `--set-default` and `--unregister` as named.
pub fn lifecycle_args(op: &LifecycleOp) -> (r: Vec<String>)
    ensures
        arg_list(r@) == lifecycle_args_spec(op@),
{
    let r = match op {
        LifecycleOp::Start(n) => vec![s("-d"), n.clone(), s("--"), s("true")],
        LifecycleOp::Terminate(n) => vec![s("--terminate"), n.clone()],
        LifecycleOp::Shutdown => vec![s("--shutdown")],
        LifecycleOp::SetDefault(n) => vec![s("--set-default"), n.clone()],
        LifecycleOp::Unregister(n) => vec![s("--unregister"), n.clone()],
    };
    assert(arg_list(r@) =~= lifecycle_args_spec(op@));
    r
}

/// The distro a lifecycle operation acts on (none for a shutdown).
pub open spec fn target_of(op: LifecycleView) -> Option<Seq<char>> {
    match op {
        LifecycleView::Start(n) => Some(n),
        LifecycleView::Terminate(n) => Some(n),
        LifecycleView::Shutdown => None,
        LifecycleView::SetDefault(n) => Some(n),
        LifecycleView::Unregister(n) => Some(n),
    }
}

/// How the arguments of lifecycle operations relate: `--shutdown`, which
/// stops the whole VM and every distro, leads only a shutdown's arguments,
/// and nothing else stands in them; every other operation names its distro
/// right after its leading flag; operations of different kinds lead with
/// different flags; and stopping one distro is `--terminate <name>`.
pub proof fn law_lifecycle_args_name_their_distro(op: LifecycleView, other: LifecycleView)
    ensures
        (lifecycle_args_spec(op)[0] == "--shutdown"@) <==> (op is Shutdown),
        op is Shutdown ==> lifecycle_args_spec(op).len() == 1,
        target_of(op) matches Some(n) ==> lifecycle_args_spec(op).len() >= 2
            && lifecycle_args_spec(op)[1] == n,
        lifecycle_args_spec(op)[0] == lifecycle_args_spec(other)[0] ==> target_of(op).is_some()
            == target_of(other).is_some() && (op is Start) == (other is Start) && (op is Terminate)
            == (other is Terminate) && (op is SetDefault) == (other is SetDefault) && (op
            is Unregister) == (other is Unregister),
        op matches LifecycleView::Terminate(n) ==> lifecycle_args_spec(op) == seq![
            "--terminate"@,
            n,
        ],
{
    reveal_strlit("-d");
    reveal_strlit("--terminate");
    reveal_strlit("--shutdown");
    reveal_strlit("--set-default");
    reveal_strlit("--unregister");
    assert("-d"@.len() == 2);
    assert("--shutdown"@.len() == 10);
    assert("--terminate"@.len() == 11);
    assert("--unregister"@.len() == 12);
    assert("--set-default"@.len() == 13);
}

/// The arguments of an export: `--export <name> <path>`, plus `--format <f>`
/// for every format but plain tar.
pub open spec fn export_args_spec(name: Seq<char>, path: Seq<char>, format: ExportFormat) -> Seq<
    Seq<char>,
> {
    let base = seq!["--export"@, name, path];
    match format_arg(format) {
        Some(f) => base + seq!["--format"@, f@],
        None => base,
    }
}

/// `wsl.exe` arguments for exporting a distro to an archive.
pub fn export_args(name: &str, path: &str, format: ExportFormat) -> (r: Vec<String>)
    ensures
        arg_list(r@) == export_args_spec(name@, path@, format),
{
    let mut r = vec![s("--export"), name.to_owned(), path.to_owned()];
    assert(arg_list(r@) =~= seq!["--export"@, name@, path@]);
    match format.wsl_format_arg() {
        Some(f) => {
            let ghost before = r@;
            r.push(s("--format"));
            r.push(f.to_owned());
            assert(arg_list(r@) =~= arg_list(before) + seq!["--format"@, f@]);
        },
        None => {},
    }
    r
}

/// The arguments of an import: `--import <name> <dir> <archive>`, plus `--vhd`
/// for a virtual-disk archive.
pub open spec fn import_args_spec(name: Seq<char>, dir: Seq<char>, tar: Seq<char>, vhd: bool) -> Seq<
    Seq<char>,
> {
    let base = seq!["--import"@, name, dir, tar];
    if vhd {
        base.push("--vhd"@)
    } else {
        base
    }
}

/// `wsl.exe` arguments for importing a distro from an archive.
pub fn import_args(name: &str, dir: &str, tar: &str, vhd: bool) -> (r: Vec<String>)
    ensures
        arg_list(r@) == import_args_spec(name@, dir@, tar@, vhd),
{
    let mut r = vec![s("--import"), name.to_owned(), dir.to_owned(), tar.to_owned()];
    assert(arg_list(r@) =~= seq!["--import"@, name@, dir@, tar@]);
    if vhd {
        let ghost before = r@;
        r.push(s("--vhd"));
        assert(arg_list(r@) =~= arg_list(before).push("--vhd"@));
    }
    r
}

/// `wsl.exe` arguments for installing a distro from the online catalog.
pub fn install_args(name: &str) -> (r: Vec<String>)
    ensures
        arg_list(r@) == seq!["--install"@, "-d"@, name@],
{
    let r = vec![s("--install"), s("-d"), name.to_owned()];
    assert(arg_list(r@) =~= seq!["--install"@, "-d"@, name@]);
    r
}

/// `wsl.exe` arguments to run a command inside a distro (as root when asked).
pub open spec fn in_distro_args_spec(name: Seq<char>, root: bool, cmd: Seq<Seq<char>>) -> Seq<
    Seq<char>,
> {
    (if root {
        seq!["-d"@, name, "-u"@, "root"@, "--"@]
    } else {
        seq!["-d"@, name, "--"@]
    }) + cmd
}

/// `wsl.exe` arguments to run `cmd` inside distro `name` (as root when `root`).
pub fn in_distro_args(name: &str, root: bool, cmd: &[&str]) -> (r: Vec<String>)
    ensures
        arg_list(r@) == in_distro_args_spec(name@, root, cmd@.map_values(|a: &str| a@)),
{
    let mut r = if root {
        vec![s("-d"), name.to_owned(), s("-u"), s("root"), s("--")]
    } else {
        vec![s("-d"), name.to_owned(), s("--")]
    };
    let ghost head = arg_list(r@);
    assert(head =~= if root {
        seq!["-d"@, name@, "-u"@, "root"@, "--"@]
    } else {
        seq!["-d"@, name@, "--"@]
    });
    let mut i: usize = 0;
    while i < cmd.len()
        invariant
            i <= cmd@.len(),
            arg_list(r@) == head + cmd@.map_values(|a: &str| a@).take(i as int),
        decreases cmd@.len() - i,
    {
        let ghost before = r@;
        r.push(cmd[i].to_owned());
        i = i + 1;
        assert(arg_list(r@) =~= arg_list(before).push(cmd@[i - 1]@));
        assert(cmd@.map_values(|a: &str| a@).take(i as int) =~= cmd@.map_values(|a: &str| a@).take(
            (i - 1) as int,
        ).push(cmd@[i - 1]@));
    }
    assert(cmd@.map_values(|a: &str| a@).take(cmd@.len() as int) =~= cmd@.map_values(
        |a: &str| a@,
    ));
    r
}

} // verus!
