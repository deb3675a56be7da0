//! The application model (state), mutated only by [`crate::app::update`].
use vstd::prelude::*;

use super::config_edit::config_wf;
use super::message::tf1;
use super::modal::{form_wf, opt_view, Modal, ModalView};
use crate::i18n::{t, text, tf_spec, Key, Lang};
use crate::metrics::{empty_history, HistoryView, MetricsHistory, DEFAULT_HISTORY};
use crate::prefs::{KeybindStyle, ShellLaunch};
use crate::text::{
    contains_exec, contains_seq, from_chars, lower, push_str_chars, str_eq, to_chars, to_lower,
};
use crate::wsl::{Distro, DistroState};

verus! {

/// The full application state.
#[derive(Debug, Clone)]
pub struct Model {
    /// Set to true when the app should exit its event loop.
    pub should_quit: bool,
    /// Number of timer ticks observed (drives polling).
    pub ticks: u64,
    /// The registered distributions, as of the last refresh.
    pub distros: Vec<Distro>,
    /// Index of the selected row in the visible (filtered) list.
    pub selected: usize,
    /// The most recent background error (e.g. a failed refresh).
    pub last_error: Option<String>,
    /// A transient status message (e.g. the result of an operation).
    pub status: Option<String>,
    /// Animation frames left before the status message expires.
    pub status_frames_left: u32,
    /// The active modal overlay, if any.
    pub modal: Option<Modal>,
    /// False until the first refresh completes (drives a "loading" hint).
    pub loaded: bool,
    /// The list filter (ASCII case-insensitive substring of the name).
    pub filter: String,
    /// Whether keys are being typed into the filter.
    pub filter_mode: bool,
    /// The UI language.
    pub lang: Lang,
    /// Which navigation keys are active.
    pub keybind_style: KeybindStyle,
    /// What `Enter` does on a distro.
    pub default_shell_launch: ShellLaunch,
    /// Root of the managed export/import folder.
    pub manage_dir: String,
    /// VM memory/CPU history.
    pub metrics: MetricsHistory,
    /// The WSL VM's total memory, once read.
    pub vm_mem_total: Option<u64>,
    /// Whether a VM memory read is in flight or has succeeded.
    pub vm_mem_attempted: bool,
    /// Distros whose in-distro disk usage has been requested.
    pub inner_disk_attempted: Vec<String>,
}

/// The abstract state of a [`Model`].
#[verifier::ext_equal]
pub struct ModelView {
    pub should_quit: bool,
    pub ticks: u64,
    pub distros: Seq<Distro>,
    pub selected: nat,
    pub last_error: Option<Seq<char>>,
    pub status: Option<Seq<char>>,
    pub status_frames_left: nat,
    pub modal: Option<ModalView>,
    pub loaded: bool,
    pub filter: Seq<char>,
    pub filter_mode: bool,
    pub lang: Lang,
    pub keybind_style: KeybindStyle,
    pub default_shell_launch: ShellLaunch,
    pub manage_dir: Seq<char>,
    pub metrics: HistoryView,
    pub vm_mem_total: Option<u64>,
    pub vm_mem_attempted: bool,
    pub inner_disk_attempted: Seq<Seq<char>>,
}

/// The abstract value of an optional modal.
pub open spec fn opt_modal_view(m: Option<Modal>) -> Option<ModalView> {
    match m {
        Some(x) => Some(x@),
        None => None,
    }
}

/// The characters of each string.
pub open spec fn string_views(v: Seq<String>) -> Seq<Seq<char>> {
    v.map_values(|s: String| s@)
}

impl View for Model {
    type V = ModelView;

    open spec fn view(&self) -> ModelView {
        ModelView {
            should_quit: self.should_quit,
            ticks: self.ticks,
            distros: self.distros@,
            selected: self.selected as nat,
            last_error: opt_view(self.last_error),
            status: opt_view(self.status),
            status_frames_left: self.status_frames_left as nat,
            modal: opt_modal_view(self.modal),
            loaded: self.loaded,
            filter: self.filter@,
            filter_mode: self.filter_mode,
            lang: self.lang,
            keybind_style: self.keybind_style,
            default_shell_launch: self.default_shell_launch,
            manage_dir: self.manage_dir@,
            metrics: self.metrics@,
            vm_mem_total: self.vm_mem_total,
            vm_mem_attempted: self.vm_mem_attempted,
            inner_disk_attempted: string_views(self.inner_disk_attempted@),
        }
    }
}

/// How many animation frames a status message stays up.
pub open spec fn status_ttl() -> nat {
    40
}

/// The open modal is usable (forms have their fields and focus, the config
/// editor's cursor is in range).
pub open spec fn modal_wf(m: Option<ModalView>) -> bool {
    match m {
        Some(ModalView::Form(f)) => form_wf(f),
        Some(ModalView::ConfigEdit(s)) => config_wf(s),
        _ => true,
    }
}

/// The model's invariant.
pub open spec fn model_wf(m: ModelView) -> bool {
    &&& modal_wf(m.modal)
    &&& m.inner_disk_attempted.no_duplicates()
}

/// Whether a distro passes the list filter.
pub open spec fn distro_matches(d: Distro, filter: Seq<char>) -> bool {
    contains_seq(lower(d.name@), lower(filter))
}

/// The distros passing `filter`, in order.
pub open spec fn filter_distros(ds: Seq<Distro>, filter: Seq<char>) -> Seq<Distro>
    decreases ds.len(),
{
    if ds.len() == 0 {
        seq![]
    } else {
        let rest = filter_distros(ds.drop_last(), filter);
        if distro_matches(ds.last(), filter) {
            rest.push(ds.last())
        } else {
            rest
        }
    }
}

/// The rows shown in the list.
pub open spec fn visible(m: ModelView) -> Seq<Distro> {
    filter_distros(m.distros, m.filter)
}

/// The selected row, if the selection is in range.
pub open spec fn selected_distro_spec(m: ModelView) -> Option<Distro> {
    if m.selected < visible(m).len() {
        Some(visible(m)[m.selected as int])
    } else {
        None
    }
}

/// The selection kept within the visible rows.
pub open spec fn clamp_spec(m: ModelView) -> ModelView {
    let n = visible(m).len();
    if n == 0 {
        ModelView { selected: 0, ..m }
    } else if m.selected >= n {
        ModelView { selected: (n - 1) as nat, ..m }
    } else {
        m
    }
}

/// The model with a fresh status message (restarting its countdown).
pub open spec fn set_status_spec(m: ModelView, msg: Seq<char>) -> ModelView {
    ModelView { status: Some(msg), status_frames_left: status_ttl(), ..m }
}

/// The model with the status message dismissed.
pub open spec fn clear_status_spec(m: ModelView) -> ModelView {
    ModelView { status: None, status_frames_left: 0, ..m }
}

/// One animation frame of status expiry: the message disappears when its
/// countdown runs out.
pub open spec fn tick_status_spec(m: ModelView) -> ModelView {
    match m.status {
        Some(_) => if m.status_frames_left <= 1 {
            ModelView { status: None, status_frames_left: 0, ..m }
        } else {
            ModelView { status_frames_left: (m.status_frames_left - 1) as nat, ..m }
        },
        None => m,
    }
}

impl Model {
    /// How many animation frames a status message stays up.
    pub const STATUS_TTL_FRAMES: u32 = 40;

    /// The rows shown in the list (those passing the filter).
    pub fn visible_distros(&self) -> (r: Vec<&Distro>)
        ensures
            r@.len() == visible(self@).len(),
            forall|i: int| 0 <= i < r@.len() ==> *r@[i] == visible(self@)[i],
    {
        let needle = to_lower(to_chars(self.filter.as_str()).as_slice());
        let mut out: Vec<&Distro> = Vec::new();
        let mut i: usize = 0;
        while i < self.distros.len()
            invariant
                i <= self.distros@.len(),
                needle@ == lower(self.filter@),
                out@.len() == filter_distros(self.distros@.take(i as int), self.filter@).len(),
                forall|j: int|
                    0 <= j < out@.len() ==> *out@[j] == filter_distros(
                        self.distros@.take(i as int),
                        self.filter@,
                    )[j],
            decreases self.distros@.len() - i,
        {
            let d = &self.distros[i];
            let name = to_lower(to_chars(d.name.as_str()).as_slice());
            let hit = contains_exec(name.as_slice(), needle.as_slice());
            proof {
                let t = self.distros@.take(i + 1);
                assert(t.drop_last() == self.distros@.take(i as int));
                assert(t.last() == self.distros@[i as int]);
            }
            if hit {
                out.push(d);
            }
            i = i + 1;
        }
        assert(self.distros@.take(self.distros@.len() as int) == self.distros@);
        out
    }

    /// The currently selected distribution, if the selection is in range.
    pub fn selected_distro(&self) -> (r: Option<&Distro>)
        ensures
            match r {
                Some(d) => selected_distro_spec(self@) == Some(*d),
                None => selected_distro_spec(self@) is None,
            },
    {
        let v = self.visible_distros();
        if self.selected < v.len() {
            Some(v[self.selected])
        } else {
            None
        }
    }

    /// Move the selection down by one, clamped to the last visible row.
    pub fn select_next(&mut self)
        ensures
            final(self)@ == (ModelView {
                selected: super::modal::select_down(old(self)@.selected, visible(old(self)@).len()),
                ..old(self)@
            }),
    {
        let count = self.visible_distros().len();
        self.selected = super::modal::select_down_exec(self.selected, count);
    }

    /// Move the selection up by one, clamped to the first row.
    pub fn select_prev(&mut self)
        ensures
            final(self)@ == (ModelView {
                selected: super::modal::select_up(old(self)@.selected),
                ..old(self)@
            }),
    {
        self.selected = super::modal::select_up_exec(self.selected);
    }

    /// Keep the selection index within the bounds of the visible list.
    pub fn clamp_selection(&mut self)
        ensures
            final(self)@ == clamp_spec(old(self)@),
    {
        let n = self.visible_distros().len();
        if n == 0 {
            self.selected = 0;
        } else if self.selected >= n {
            self.selected = n - 1;
        }
    }

    /// Show a status message, restarting its expiry countdown.
    pub fn set_status(&mut self, msg: String)
        ensures
            final(self)@ == set_status_spec(old(self)@, msg@),
    {
        self.status = Some(msg);
        self.status_frames_left = Self::STATUS_TTL_FRAMES;
    }

    /// Dismiss the status message.
    pub fn clear_status(&mut self)
        ensures
            final(self)@ == clear_status_spec(old(self)@),
    {
        self.status = None;
        self.status_frames_left = 0;
    }

    /// Count one animation frame towards the status message's expiry.
    pub fn tick_status(&mut self)
        ensures
            final(self)@ == tick_status_spec(old(self)@),
    {
        if self.status.is_some() {
            if self.status_frames_left <= 1 {
                self.status = None;
                self.status_frames_left = 0;
            } else {
                self.status_frames_left = self.status_frames_left - 1;
            }
        }
    }

    /// Whether the model's invariant holds: its open modal is usable, and no
    /// distro is remembered twice as asked for its disk usage.
    pub fn is_consistent(&self) -> (r: bool)
        ensures
            r == model_wf(self@),
    {
        names_distinct(&self.inner_disk_attempted) && self.modal_usable()
    }

    /// Whether the open modal is usable.
    fn modal_usable(&self) -> (r: bool)
        ensures
            r == modal_wf(self@.modal),
    {
        match &self.modal {
            Some(Modal::Form(f)) => {
                let need: usize = match f.kind {
                    super::modal::FormKind::ImportCustom => 2,
                    _ => 1,
                };
                f.fields.len() >= need && f.focus < f.fields.len()
            },
            Some(Modal::ConfigEdit(s)) => {
                let n = s.raw.lines.len();
                n >= 1 && s.raw.row < n && s.raw.col <= char_len(&s.raw.lines[s.raw.row])
            },
            _ => true,
        }
    }
}

/// Whether no name occurs twice.
fn names_distinct(v: &Vec<String>) -> (r: bool)
    ensures
        r == string_views(v@).no_duplicates(),
{
    let ghost sv = string_views(v@);
    let mut i: usize = 0;
    while i < v.len()
        invariant
            i <= v@.len(),
            sv == string_views(v@),
            forall|a: int, b: int| 0 <= a < i && 0 <= b < v@.len() && a != b ==> sv[a] != sv[b],
        decreases v@.len() - i,
    {
        let mut j: usize = 0;
        while j < v.len()
            invariant
                i < v@.len(),
                j <= v@.len(),
                sv == string_views(v@),
                forall|a: int, b: int| 0 <= a < i && 0 <= b < v@.len() && a != b ==> sv[a] != sv[b],
                forall|b: int| 0 <= b < j && b != i ==> sv[i as int] != sv[b],
            decreases v@.len() - j,
        {
            if j != i && str_eq(v[i].as_str(), v[j].as_str()) {
                assert(sv[i as int] == sv[j as int]);
                return false;
            }
            j = j + 1;
        }
        i = i + 1;
    }
    true
}

fn char_len(s: &String) -> (r: usize)
    ensures
        r == s@.len(),
{
    to_chars(s.as_str()).len()
}

/// The catalog key naming a distro state.
pub open spec fn state_key(s: DistroState) -> Key {
    match s {
        DistroState::Running => Key::StateRunning,
        DistroState::Stopped => Key::StateStopped,
        DistroState::Installing => Key::StateInstalling,
        DistroState::Unknown => Key::StateUnknown,
    }
}

/// The localized label of a distro state.
pub fn state_label(lang: Lang, state: DistroState) -> (r: &'static str)
    ensures
        r@ == text(lang, state_key(state)),
{
    t(
        lang,
        match state {
            DistroState::Running => Key::StateRunning,
            DistroState::Stopped => Key::StateStopped,
            DistroState::Installing => Key::StateInstalling,
            DistroState::Unknown => Key::StateUnknown,
        },
    )
}

/// The memory total that VM memory is shown against: the VM's own total once
/// read, else the host's, else none.
pub open spec fn mem_total_spec(m: ModelView) -> Option<u64> {
    match m.vm_mem_total {
        Some(b) if b > 0 => Some(b),
        _ => if m.metrics.total_mem_bytes > 0 {
            Some(m.metrics.total_mem_bytes)
        } else {
            None
        },
    }
}

impl Model {
    /// The memory total that VM memory is shown against.
    pub fn mem_total(&self) -> (r: Option<u64>)
        ensures
            r == mem_total_spec(self@),
    {
        match self.vm_mem_total {
            Some(b) if b > 0 => Some(b),
            _ => {
                let total = self.metrics.total_mem();
                if total > 0 {
                    Some(total)
                } else {
                    None
                }
            },
        }
    }
}

/// The model the application starts from.
pub open spec fn initial_model() -> ModelView {
    ModelView {
        should_quit: false,
        ticks: 0,
        distros: seq![],
        selected: 0,
        last_error: None,
        status: None,
        status_frames_left: 0,
        modal: None,
        loaded: false,
        filter: seq![],
        filter_mode: false,
        lang: Lang::En,
        keybind_style: KeybindStyle::Both,
        default_shell_launch: ShellLaunch::Inline,
        manage_dir: seq![],
        metrics: empty_history(DEFAULT_HISTORY as nat),
        vm_mem_total: None,
        vm_mem_attempted: false,
        inner_disk_attempted: seq![],
    }
}

impl Default for Model {
    fn default() -> (r: Self)
        ensures
            r@ == initial_model(),
    {
        let r = Model {
            should_quit: false,
            ticks: 0,
            distros: Vec::new(),
            selected: 0,
            last_error: None,
            status: None,
            status_frames_left: 0,
            modal: None,
            loaded: false,
            filter: String::new(),
            filter_mode: false,
            lang: Lang::En,
            keybind_style: KeybindStyle::Both,
            default_shell_launch: ShellLaunch::Inline,
            manage_dir: String::new(),
            metrics: MetricsHistory::default(),
            vm_mem_total: None,
            vm_mem_attempted: false,
            inner_disk_attempted: Vec::new(),
        };
        assert(r@.inner_disk_attempted =~= seq![]);
        r
    }
}

/// How the status line is shown.
#[derive(Debug, Clone, Copy, PartialEq, Eq, Structural)]
pub enum StatusTone {
    /// The filter being typed.
    Input,
    /// A filter is applied.
    Notice,
    /// The last background error.
    Error,
    /// The result of an operation.
    Success,
    /// Loading, or the key hints when idle.
    Muted,
}

/// The status line: the filter prompt while typing one, else the applied
/// filter, else the last error, else the status message, else "loading"
/// before the first refresh, else the key hints.
pub open spec fn status_line_spec(m: ModelView) -> (StatusTone, Seq<char>) {
    if m.filter_mode {
        (StatusTone::Input, seq!['/'] + m.filter + seq!['▏'])
    } else if m.filter.len() > 0 {
        (StatusTone::Notice, tf_spec(m.lang, Key::FilterApplied, seq![m.filter]))
    } else if m.last_error is Some {
        (
            StatusTone::Error,
            text(m.lang, Key::ErrorPrefix) + seq![':', ' '] + m.last_error->0,
        )
    } else if m.status is Some {
        (StatusTone::Success, m.status->0)
    } else if !m.loaded {
        (StatusTone::Muted, text(m.lang, Key::Loading))
    } else {
        (StatusTone::Muted, text(m.lang, Key::StatusHint))
    }
}

impl Model {
    /// What the status line shows, and how.
    pub fn status_line(&self) -> (r: (StatusTone, String))
        ensures
            (r.0, r.1@) == status_line_spec(self@),
    {
        if self.filter_mode {
            let mut out: Vec<char> = vec!['/'];
            push_str_chars(&mut out, self.filter.as_str());
            out.push('▏');
            assert(out@ =~= seq!['/'] + self.filter@ + seq!['▏']);
            return (StatusTone::Input, from_chars(out.as_slice()));
        }
        if !self.filter.as_str().is_empty() {
            return (StatusTone::Notice, tf1(self.lang, Key::FilterApplied, self.filter.as_str()));
        }
        match &self.last_error {
            Some(error) => {
                let mut out: Vec<char> = Vec::new();
                push_str_chars(&mut out, t(self.lang, Key::ErrorPrefix));
                out.push(':');
                out.push(' ');
                push_str_chars(&mut out, error.as_str());
                assert(out@ =~= text(self.lang, Key::ErrorPrefix) + seq![':', ' '] + error@);
                return (StatusTone::Error, from_chars(out.as_slice()));
            },
            None => {},
        }
        match &self.status {
            Some(status) => {
                return (StatusTone::Success, status.clone());
            },
            None => {},
        }
        if !self.loaded {
            (StatusTone::Muted, t(self.lang, Key::Loading).to_owned())
        } else {
            (StatusTone::Muted, t(self.lang, Key::StatusHint).to_owned())
        }
    }
}

} // verus!
