//! Core message types for the MVU loop.
//!
//! [`Event`] is what the application shell feeds in (key input and timer
//! ticks). [`Action`] is what the [`crate::app::update`] reducer consumes.
//! [`Command`]s returned by `update` describe side effects the shell then
//! executes.
use vstd::prelude::*;

use super::input::KeyPress;
use crate::config::ConfigTarget;
use crate::i18n::{arg_views, tf, tf_spec, Key, Lang};
use crate::manage::{Archive, ExportFormat};
use crate::metrics::MetricsSample;
use crate::wsl::{Distro, OnlineDistro};

verus! {

/// Low-level input delivered by the application shell.
#[derive(Debug, Clone, Copy, PartialEq, Eq, Structural)]
pub enum Event {
    /// A key press (key repeat/release events are filtered out by the shell).
    Key(KeyPress),
    /// The terminal was resized to (width, height).
    Resize(u16, u16),
    /// Periodic timer tick. Drives list/metrics polling.
    Tick,
    /// Fast animation tick. Drives spinner animation and status expiry.
    Frame,
}

/// A message consumed by [`crate::app::update`] to advance the model.
#[derive(Debug, Clone, PartialEq, Eq)]
pub enum Action {
    /// An input event.
    Event(Event),
    /// The distro list was refreshed successfully.
    Refreshed(Vec<Distro>),
    /// A refresh attempt failed; carries a human-readable message.
    RefreshFailed(String),
    /// A resource sample was taken.
    MetricsSampled(MetricsSample),
    /// In-distro filesystem usage `(used, total)` bytes arrived for a distro.
    InnerDiskSampled {
        /// The distro the sample is for.
        name: String,
        /// The usage, or `None` if it could not be read.
        inner: Option<(u64, u64)>,
    },
    /// The WSL VM's total memory arrived (`None` if it could not be read).
    VmMemorySampled(Option<u64>),
    /// The list of installable distributions arrived.
    OnlineList(Vec<OnlineDistro>),
    /// The default export filename was computed; open the export form.
    ExportDialogReady {
        /// The distro to export.
        distro: String,
        /// The default (editable) filename.
        filename: String,
    },
    /// The managed `exports\` listing arrived.
    ExportsListed(Vec<Archive>),
    /// A configuration file was loaded for editing.
    ConfigLoaded {
        /// Which file was loaded.
        target: ConfigTarget,
        /// Its current contents.
        content: String,
    },
    /// A lifecycle operation finished successfully (carries a status message).
    OpDone(String),
    /// A lifecycle operation failed (carries an error message).
    OpFailed(String),
    /// Request to quit the application.
    Quit,
}

/// A distribution lifecycle operation.
#[derive(Debug, Clone, PartialEq, Eq)]
pub enum LifecycleOp {
    /// Boot the distro (`wsl -d <name> -- true`).
    Start(String),
    /// Stop this distro (`wsl --terminate <name>`).
    Terminate(String),
    /// Stop the whole WSL VM (`wsl --shutdown`).
    Shutdown,
    /// Make this distro the default (`wsl --set-default <name>`).
    SetDefault(String),
    /// Unregister (permanently delete) this distro (`wsl --unregister <name>`).
    Unregister(String),
}

/// A side effect requested by [`crate::app::update`]; its result comes back
/// as an [`Action`]. Paths are Windows path strings.
#[derive(Debug, Clone, PartialEq, Eq)]
pub enum Command {
    /// Re-read the distro list (plus registry and disk metadata).
    RefreshList,
    /// Sample resource usage (VM memory and CPU).
    SampleMetrics,
    /// Sample in-distro filesystem usage for a single (running) distro.
    SampleInnerDisk(String),
    /// Read the WSL VM's total memory through the named (running) distro.
    SampleVmMemory(String),
    /// Run a distribution lifecycle operation.
    Lifecycle(LifecycleOp),
    /// Suspend the TUI and run an interactive shell inline, resuming on exit.
    LaunchInlineShell(String),
    /// Open an interactive shell in a new Windows Terminal tab.
    LaunchTabShell(String),
    /// Fetch the list of installable distributions.
    ListOnline,
    /// Export a distro to an archive file.
    Export {
        /// The distro to export.
        name: String,
        /// Destination archive path (under the managed `exports\`).
        path: String,
        /// Archive format (derived from the filename extension).
        format: ExportFormat,
    },
    /// Import a distro from an archive file.
    Import {
        /// New distro name.
        name: String,
        /// Install directory (managed `installed\<name>\`).
        dir: String,
        /// Source archive path.
        tar: String,
        /// Whether the source is a `.vhd(x)` (adds `--vhd`).
        vhd: bool,
    },
    /// Build the timestamped default export filename and open the dialog.
    OpenExportDialog {
        /// The distro to export.
        distro: String,
    },
    /// List archives in the managed `exports\` folder.
    ListExports,
    /// Delete a managed archive, then re-list.
    DeleteExport(String),
    /// Install a distro from the online catalog.
    Install {
        /// The install id.
        name: String,
    },
    /// Cancel the in-flight long-running operation.
    CancelOp,
    /// Load a configuration file for editing.
    LoadConfig(ConfigTarget),
    /// Save a configuration file.
    SaveConfig {
        /// Which file to save.
        target: ConfigTarget,
        /// The new contents.
        content: String,
    },
    /// Persist the current preferences (e.g. after a language change).
    SavePrefs,
}

// ---------------------------------------------------------------------------
// Views
// ---------------------------------------------------------------------------
/// The abstract value of a [`LifecycleOp`].
pub enum LifecycleView {
    Start(Seq<char>),
    Terminate(Seq<char>),
    Shutdown,
    SetDefault(Seq<char>),
    Unregister(Seq<char>),
}

impl View for LifecycleOp {
    type V = LifecycleView;

    open spec fn view(&self) -> LifecycleView {
        match self {
            LifecycleOp::Start(n) => LifecycleView::Start(n@),
            LifecycleOp::Terminate(n) => LifecycleView::Terminate(n@),
            LifecycleOp::Shutdown => LifecycleView::Shutdown,
            LifecycleOp::SetDefault(n) => LifecycleView::SetDefault(n@),
            LifecycleOp::Unregister(n) => LifecycleView::Unregister(n@),
        }
    }
}

/// The abstract value of a [`Command`].
pub enum CommandView {
    RefreshList,
    SampleMetrics,
    SampleInnerDisk(Seq<char>),
    SampleVmMemory(Seq<char>),
    Lifecycle(LifecycleView),
    LaunchInlineShell(Seq<char>),
    LaunchTabShell(Seq<char>),
    ListOnline,
    Export { name: Seq<char>, path: Seq<char>, format: ExportFormat },
    Import { name: Seq<char>, dir: Seq<char>, tar: Seq<char>, vhd: bool },
    OpenExportDialog { distro: Seq<char> },
    ListExports,
    DeleteExport(Seq<char>),
    Install { name: Seq<char> },
    CancelOp,
    LoadConfig(ConfigTarget),
    SaveConfig { target: ConfigTarget, content: Seq<char> },
    SavePrefs,
}

impl View for Command {
    type V = CommandView;

    open spec fn view(&self) -> CommandView {
        match self {
            Command::RefreshList => CommandView::RefreshList,
            Command::SampleMetrics => CommandView::SampleMetrics,
            Command::SampleInnerDisk(n) => CommandView::SampleInnerDisk(n@),
            Command::SampleVmMemory(n) => CommandView::SampleVmMemory(n@),
            Command::Lifecycle(op) => CommandView::Lifecycle(op@),
            Command::LaunchInlineShell(n) => CommandView::LaunchInlineShell(n@),
            Command::LaunchTabShell(n) => CommandView::LaunchTabShell(n@),
            Command::ListOnline => CommandView::ListOnline,
            Command::Export { name, path, format } => CommandView::Export {
                name: name@,
                path: path@,
                format: *format,
            },
            Command::Import { name, dir, tar, vhd } => CommandView::Import {
                name: name@,
                dir: dir@,
                tar: tar@,
                vhd: *vhd,
            },
            Command::OpenExportDialog { distro } => CommandView::OpenExportDialog {
                distro: distro@,
            },
            Command::ListExports => CommandView::ListExports,
            Command::DeleteExport(p) => CommandView::DeleteExport(p@),
            Command::Install { name } => CommandView::Install { name: name@ },
            Command::CancelOp => CommandView::CancelOp,
            Command::LoadConfig(t) => CommandView::LoadConfig(*t),
            Command::SaveConfig { target, content } => CommandView::SaveConfig {
                target: *target,
                content: content@,
            },
            Command::SavePrefs => CommandView::SavePrefs,
        }
    }
}

/// The abstract values of a list of commands.
pub open spec fn cmd_views(v: Seq<Command>) -> Seq<CommandView> {
    v.map_values(|c: Command| c@)
}

/// The abstract value of an [`Action`].
pub enum ActionView {
    Event(Event),
    Refreshed(Seq<Distro>),
    RefreshFailed(Seq<char>),
    MetricsSampled(MetricsSample),
    InnerDiskSampled { name: Seq<char>, inner: Option<(u64, u64)> },
    VmMemorySampled(Option<u64>),
    OnlineList(Seq<OnlineDistro>),
    ExportDialogReady { distro: Seq<char>, filename: Seq<char> },
    ExportsListed(Seq<Archive>),
    ConfigLoaded { target: ConfigTarget, content: Seq<char> },
    OpDone(Seq<char>),
    OpFailed(Seq<char>),
    Quit,
}

impl View for Action {
    type V = ActionView;

    open spec fn view(&self) -> ActionView {
        match self {
            Action::Event(e) => ActionView::Event(*e),
            Action::Refreshed(d) => ActionView::Refreshed(d@),
            Action::RefreshFailed(m) => ActionView::RefreshFailed(m@),
            Action::MetricsSampled(s) => ActionView::MetricsSampled(*s),
            Action::InnerDiskSampled { name, inner } => ActionView::InnerDiskSampled {
                name: name@,
                inner: *inner,
            },
            Action::VmMemorySampled(t) => ActionView::VmMemorySampled(*t),
            Action::OnlineList(items) => ActionView::OnlineList(items@),
            Action::ExportDialogReady { distro, filename } => ActionView::ExportDialogReady {
                distro: distro@,
                filename: filename@,
            },
            Action::ExportsListed(e) => ActionView::ExportsListed(e@),
            Action::ConfigLoaded { target, content } => ActionView::ConfigLoaded {
                target: *target,
                content: content@,
            },
            Action::OpDone(m) => ActionView::OpDone(m@),
            Action::OpFailed(m) => ActionView::OpFailed(m@),
            Action::Quit => ActionView::Quit,
        }
    }
}

/// The status message shown after an operation completes.
pub open spec fn done_message_spec(op: LifecycleView, lang: Lang) -> Seq<char> {
    match op {
        LifecycleView::Start(n) => tf_spec(lang, Key::DoneStarted, seq![n]),
        LifecycleView::Terminate(n) => tf_spec(lang, Key::DoneTerminated, seq![n]),
        LifecycleView::Shutdown => tf_spec(lang, Key::DoneShutdown, seq![]),
        LifecycleView::SetDefault(n) => tf_spec(lang, Key::DoneSetDefault, seq![n]),
        LifecycleView::Unregister(n) => tf_spec(lang, Key::DoneUnregistered, seq![n]),
    }
}

/// `tf` with a single argument.
pub fn tf1(lang: Lang, key: Key, arg: &str) -> (r: String)
    ensures
        r@ == tf_spec(lang, key, seq![arg@]),
{
    let args: [&str; 1] = [arg];
    let r = tf(lang, key, args.as_slice());
    assert(arg_views(args@) =~= seq![arg@]);
    r
}

/// `tf` with no argument.
pub fn tf0(lang: Lang, key: Key) -> (r: String)
    ensures
        r@ == tf_spec(lang, key, seq![]),
{
    let args: [&str; 0] = [];
    let r = tf(lang, key, args.as_slice());
    assert(arg_views(args@) =~= seq![]);
    r
}

impl LifecycleOp {
    /// A localized success message shown after the operation completes.
    pub fn done_message(&self, lang: Lang) -> (r: String)
        ensures
            r@ == done_message_spec(self@, lang),
    {
        match self {
            LifecycleOp::Start(name) => tf1(lang, Key::DoneStarted, name.as_str()),
            LifecycleOp::Terminate(name) => tf1(lang, Key::DoneTerminated, name.as_str()),
            LifecycleOp::Shutdown => tf0(lang, Key::DoneShutdown),
            LifecycleOp::SetDefault(name) => tf1(lang, Key::DoneSetDefault, name.as_str()),
            LifecycleOp::Unregister(name) => tf1(lang, Key::DoneUnregistered, name.as_str()),
        }
    }
}

} // verus!
