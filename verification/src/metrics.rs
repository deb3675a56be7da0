//! Metrics: classification of the WSL VM host process, selection of its
//! working set and CPU time, and a ring-buffer history for sparklines. The
//! WSL2 VM is shared by all distributions, so these are machine-wide figures.
//! Taking a sample (the kernel process snapshot, the clock, total memory) is
//! the application's job; this module holds the rules applied to samples.
use vstd::prelude::*;

use std::collections::VecDeque;

use crate::text::{ends_with, ends_with_exec, eq_ignore_case, eq_ignore_case_exec, to_chars};

verus! {

/// Default number of samples retained for the sparklines.
pub const DEFAULT_HISTORY: usize = 60;

/// A single resource sample.
#[derive(Debug, Clone, Copy, Default, PartialEq, Eq)]
pub struct MetricsSample {
    /// Working set of the WSL VM process in bytes, or `None` when the VM is not
    /// running.
    pub vmmem_bytes: Option<u64>,
    /// Total physical memory of the machine, in bytes.
    pub total_mem_bytes: u64,
    /// Cumulative CPU time (kernel + user) of the WSL VM in 100 ns units, or
    /// `None` when the VM is not running.
    pub vm_cpu_100ns: Option<u64>,
    /// When the sample was taken, in nanoseconds on a monotonic clock. `None`
    /// only in synthetic samples.
    pub taken_at: Option<u64>,
    /// Host logical CPU count at sample time (0 is treated as 1).
    pub logical_cpus: u32,
}

/// Which WSL VM host process a name refers to.
#[derive(Debug, Clone, Copy, PartialEq, Eq, Structural)]
pub enum VmKind {
    /// The modern WSL2 VM, `vmmemWSL`.
    Wsl,
    /// The legacy bare `vmmem` (possibly another Hyper-V VM; only a fallback).
    Legacy,
}

/// A WSL VM host process found in the kernel snapshot.
#[derive(Debug, Clone, Copy, PartialEq, Eq, Structural)]
pub struct VmCandidate {
    /// Which process it is.
    pub kind: VmKind,
    /// Working set in bytes.
    pub working_set: u64,
    /// Cumulative CPU time (kernel + user) in 100 ns units.
    pub cpu_100ns: u64,
}

/// `name` without a trailing `.exe` (case-sensitive, as `strip_suffix`).
pub open spec fn strip_exe(name: Seq<char>) -> Seq<char> {
    if ends_with(name, ".exe"@) {
        name.take(name.len() - 4)
    } else {
        name
    }
}

/// The VM kind a process name denotes (ASCII case-insensitive, `.exe`
/// optional).
pub open spec fn classify_spec(name: Seq<char>) -> Option<VmKind> {
    let n = strip_exe(name);
    if eq_ignore_case(n, "vmmemWSL"@) {
        Some(VmKind::Wsl)
    } else if eq_ignore_case(n, "vmmem"@) {
        Some(VmKind::Legacy)
    } else {
        None
    }
}

/// Classify a process name as the WSL2 VM, the legacy `vmmem`, or neither.
pub fn classify_vm(name: &str) -> (r: Option<VmKind>)
    ensures
        r == classify_spec(name@),
{
    let chars = to_chars(name);
    let exe = to_chars(".exe");
    proof {
        reveal_strlit(".exe");
    }
    let stem = if ends_with_exec(chars.as_slice(), exe.as_slice()) {
        crate::text::copy_range(chars.as_slice(), 0, chars.len() - 4)
    } else {
        chars
    };
    assert(stem@ == strip_exe(name@));
    let wsl = to_chars("vmmemWSL");
    let legacy = to_chars("vmmem");
    if eq_ignore_case_exec(stem.as_slice(), wsl.as_slice()) {
        Some(VmKind::Wsl)
    } else if eq_ignore_case_exec(stem.as_slice(), legacy.as_slice()) {
        Some(VmKind::Legacy)
    } else {
        None
    }
}

/// Index of the first candidate of kind `k`, if any.
pub open spec fn first_of_kind(c: Seq<VmCandidate>, k: VmKind) -> Option<int>
    decreases c.len(),
{
    if c.len() == 0 {
        None
    } else if c[0].kind == k {
        Some(0)
    } else {
        match first_of_kind(c.drop_first(), k) {
            Some(i) => Some(i + 1),
            None => None,
        }
    }
}

/// The WSL VM candidate: the first `vmmemWSL`, else the first `vmmem`.
pub open spec fn select_vm_spec(c: Seq<VmCandidate>) -> Option<VmCandidate> {
    match first_of_kind(c, VmKind::Wsl) {
        Some(i) => Some(c[i]),
        None => match first_of_kind(c, VmKind::Legacy) {
            Some(i) => Some(c[i]),
            None => None,
        },
    }
}

proof fn lemma_first_of_kind(c: Seq<VmCandidate>, k: VmKind, i: int)
    requires
        0 <= i <= c.len(),
        forall|j: int| 0 <= j < i ==> c[j].kind != k,
    ensures
        i < c.len() && c[i].kind == k ==> first_of_kind(c, k) == Some(i),
        i == c.len() ==> first_of_kind(c, k) is None,
    decreases i,
{
    if i > 0 {
        let t = c.drop_first();
        assert forall|j: int| 0 <= j < i - 1 implies t[j].kind != k by {
            assert(t[j] == c[j + 1]);
        }
        lemma_first_of_kind(t, k, i - 1);
    }
}

fn find_kind(candidates: &[VmCandidate], k: VmKind) -> (r: Option<usize>)
    ensures
        match r {
            Some(i) => first_of_kind(candidates@, k) == Some(i as int) && i < candidates@.len(),
            None => first_of_kind(candidates@, k) is None,
        },
{
    let mut i: usize = 0;
    while i < candidates.len()
        invariant
            i <= candidates@.len(),
            forall|j: int| 0 <= j < i ==> candidates@[j].kind != k,
        decreases candidates@.len() - i,
    {
        if candidates[i].kind == k {
            proof {
                lemma_first_of_kind(candidates@, k, i as int);
            }
            return Some(i);
        }
        i = i + 1;
    }
    proof {
        lemma_first_of_kind(candidates@, k, i as int);
    }
    None
}

/// The single WSL VM candidate, preferring `vmmemWSL` over legacy `vmmem`.
pub fn select_vm(candidates: &[VmCandidate]) -> (r: Option<VmCandidate>)
    ensures
        r == select_vm_spec(candidates@),
{
    match find_kind(candidates, VmKind::Wsl) {
        Some(i) => Some(candidates[i]),
        None => match find_kind(candidates, VmKind::Legacy) {
            Some(i) => Some(candidates[i]),
            None => None,
        },
    }
}

/// The WSL VM's working set, preferring `vmmemWSL`; `None` when no VM runs.
pub fn select_vm_working_set(candidates: &[VmCandidate]) -> (r: Option<u64>)
    ensures
        r == match select_vm_spec(candidates@) {
            Some(c) => Some(c.working_set),
            None => None,
        },
{
    match select_vm(candidates) {
        Some(c) => Some(c.working_set),
        None => None,
    }
}

/// The WSL VM's cumulative CPU time, preferring `vmmemWSL`; `None` when no VM
/// runs.
pub fn select_vm_cpu_ticks(candidates: &[VmCandidate]) -> (r: Option<u64>)
    ensures
        r == match select_vm_spec(candidates@) {
            Some(c) => Some(c.cpu_100ns),
            None => None,
        },
{
    match select_vm(candidates) {
        Some(c) => Some(c.cpu_100ns),
        None => None,
    }
}

// ---------------------------------------------------------------------------
// CPU time from the process record
// ---------------------------------------------------------------------------
/// The unsigned little-endian value of `b[off..off + 8]`.
pub open spec fn le_u64(b: Seq<u8>, off: int) -> int {
    b[off] + 0x100 * b[off + 1] + 0x1_0000 * b[off + 2] + 0x100_0000 * b[off + 3] + 0x1_0000_0000
        * b[off + 4] + 0x100_0000_0000 * b[off + 5] + 0x1_0000_0000_0000 * b[off + 6]
        + 0x100_0000_0000_0000 * b[off + 7]
}

/// The little-endian two's-complement `i64` at `b[off..off + 8]`.
pub open spec fn le_i64(b: Seq<u8>, off: int) -> int {
    let u = le_u64(b, off);
    if u >= 0x8000_0000_0000_0000 {
        u - 0x1_0000_0000_0000_0000
    } else {
        u
    }
}

/// The sum of the process's user time (bytes 32..40) and kernel time (bytes
/// 40..48), saturated to the `i64` range and then clamped at zero.
pub open spec fn cpu_100ns_spec(reserved: Seq<u8>) -> int {
    let s = le_i64(reserved, 32) + le_i64(reserved, 40);
    if s <= 0 {
        0
    } else if s > 0x7fff_ffff_ffff_ffff {
        0x7fff_ffff_ffff_ffff
    } else {
        s
    }
}

fn read_le_i64(b: &[u8; 48], off: usize) -> (r: i64)
    requires
        off + 8 <= 48,
    ensures
        r == le_i64(b@, off as int),
{
    let mut v: u64 = b[off + 7] as u64;
    v = v * 0x100 + b[off + 6] as u64;
    v = v * 0x100 + b[off + 5] as u64;
    v = v * 0x100 + b[off + 4] as u64;
    v = v * 0x100 + b[off + 3] as u64;
    v = v * 0x100 + b[off + 2] as u64;
    v = v * 0x100 + b[off + 1] as u64;
    v = v * 0x100 + b[off] as u64;
    assert(v == le_u64(b@, off as int));
    if v >= 0x8000_0000_0000_0000 {
        let neg: u64 = 0xffff_ffff_ffff_ffff - v;
        -(neg as i64) - 1
    } else {
        v as i64
    }
}

/// Sum of a process's kernel + user CPU time, in 100 ns units, from the
/// 48-byte reserved block of its `SYSTEM_PROCESS_INFORMATION` record (the
/// stable layout `WorkingSetPrivateSize(8) HardFaultCount(4)
/// NumberOfThreadsHighWatermark(4) CycleTime(8) CreateTime(8) UserTime(8)
/// KernelTime(8)`).
pub fn process_cpu_100ns(reserved1: &[u8; 48]) -> (r: u64)
    ensures
        r == cpu_100ns_spec(reserved1@),
{
    let user = read_le_i64(reserved1, 32);
    let kernel = read_le_i64(reserved1, 40);
    let s: i128 = user as i128 + kernel as i128;
    if s <= 0 {
        0
    } else if s > 0x7fff_ffff_ffff_ffff {
        0x7fff_ffff_ffff_ffff
    } else {
        s as u64
    }
}


// ---------------------------------------------------------------------------
// History
// ---------------------------------------------------------------------------
/// The abstract state of a [`MetricsHistory`].
pub struct HistoryView {
    /// Maximum number of samples kept (at least one).
    pub capacity: nat,
    /// Recent VM memory readings, oldest first (a stopped VM reads as zero).
    pub vmmem: Seq<u64>,
    /// Recent VM CPU shares in tenths of a percent, oldest first.
    pub vm_cpu: Seq<u64>,
    /// The most recent VM memory reading.
    pub latest_vmmem: Option<u64>,
    /// The most recent VM CPU share in tenths of a percent.
    pub latest_vm_cpu_permille: Option<u64>,
    /// Total physical memory, in bytes.
    pub total_mem_bytes: u64,
    /// The previous CPU reading `(cumulative 100 ns, taken at ns)`.
    pub prev_cpu: Option<(u64, u64)>,
}

/// `s` with its oldest elements dropped so that at most `cap` remain.
pub open spec fn keep_last(s: Seq<u64>, cap: nat) -> Seq<u64> {
    if s.len() > cap {
        s.skip(s.len() - cap)
    } else {
        s
    }
}

/// The VM CPU share, in tenths of a percent of the whole host, of `busy`
/// 100 ns units of CPU time over `dt` nanoseconds on `cpus` logical CPUs:
/// `busy / (dt * cpus)` scaled to 0..=1000, rounded to nearest and capped.
pub open spec fn cpu_permille(busy: nat, dt: nat, cpus: nat) -> nat
    recommends
        dt > 0,
        cpus > 0,
{
    let num = busy * 100_000;
    let den = dt * cpus;
    let r = (2 * num + den) / (2 * den);
    if r > 1000 {
        1000
    } else {
        r as nat
    }
}

/// The CPU share a sample yields against the previous reading, and the reading
/// it leaves behind: nothing on the first sample after a start (or a stopped
/// VM), the previous share again when no time has passed.
pub open spec fn cpu_step(
    prev: Option<(u64, u64)>,
    prev_pct: Option<u64>,
    s: MetricsSample,
) -> (Option<u64>, Option<(u64, u64)>) {
    match (s.vm_cpu_100ns, s.taken_at) {
        (Some(curr), Some(now)) => {
            let cpus: nat = if s.logical_cpus == 0 {
                1
            } else {
                s.logical_cpus as nat
            };
            let pct = match prev {
                Some((prev_ticks, prev_t)) => {
                    let dt: nat = if now >= prev_t {
                        (now - prev_t) as nat
                    } else {
                        0
                    };
                    if dt > 0 {
                        let busy: nat = if curr >= prev_ticks {
                            (curr - prev_ticks) as nat
                        } else {
                            0
                        };
                        Some(cpu_permille(busy, dt, cpus) as u64)
                    } else {
                        prev_pct
                    }
                },
                None => None,
            };
            (pct, Some((curr, now)))
        },
        _ => (None, None),
    }
}

/// The history after recording a sample.
pub open spec fn push_spec(h: HistoryView, s: MetricsSample) -> HistoryView {
    let (pct, prev) = cpu_step(h.prev_cpu, h.latest_vm_cpu_permille, s);
    let mem: u64 = match s.vmmem_bytes {
        Some(b) => b,
        None => 0,
    };
    let bar: u64 = match pct {
        Some(p) => p,
        None => 0,
    };
    HistoryView {
        capacity: h.capacity,
        vmmem: keep_last(h.vmmem.push(mem), h.capacity),
        vm_cpu: keep_last(h.vm_cpu.push(bar), h.capacity),
        latest_vmmem: s.vmmem_bytes,
        latest_vm_cpu_permille: pct,
        total_mem_bytes: if s.total_mem_bytes > 0 {
            s.total_mem_bytes
        } else {
            h.total_mem_bytes
        },
        prev_cpu: prev,
    }
}

/// A fixed-capacity ring buffer of recent samples for sparkline rendering.
#[derive(Debug, Clone)]
pub struct MetricsHistory {
    capacity: usize,
    vmmem: VecDeque<u64>,
    /// CPU sparkline buffer, in tenths of a percent (0..=1000).
    vm_cpu: VecDeque<u64>,
    /// The most recent VM memory reading (`None` if the VM is not running).
    latest_vmmem: Option<u64>,
    /// The most recent VM CPU share in tenths of a percent (0..=1000), or
    /// `None` until a second sample exists or while the VM is stopped.
    latest_vm_cpu_permille: Option<u64>,
    /// Total physical memory, in bytes.
    total_mem_bytes: u64,
    /// Previous CPU reading `(cumulative_100ns, taken_at)` for the delta.
    prev_cpu: Option<(u64, u64)>,
}

impl View for MetricsHistory {
    type V = HistoryView;

    closed spec fn view(&self) -> HistoryView {
        HistoryView {
            capacity: self.capacity as nat,
            vmmem: self.vmmem@,
            vm_cpu: self.vm_cpu@,
            latest_vmmem: self.latest_vmmem,
            latest_vm_cpu_permille: self.latest_vm_cpu_permille,
            total_mem_bytes: self.total_mem_bytes,
            prev_cpu: self.prev_cpu,
        }
    }
}

impl Default for MetricsHistory {
    fn default() -> (r: Self)
        ensures
            r@ == empty_history(DEFAULT_HISTORY as nat),
    {
        Self::new(DEFAULT_HISTORY)
    }
}

/// A history with nothing recorded yet.
pub open spec fn empty_history(capacity: nat) -> HistoryView {
    HistoryView {
        capacity: if capacity >= 1 {
            capacity
        } else {
            1
        },
        vmmem: seq![],
        vm_cpu: seq![],
        latest_vmmem: None,
        latest_vm_cpu_permille: None,
        total_mem_bytes: 0,
        prev_cpu: None,
    }
}

fn trim_to(q: &mut VecDeque<u64>, cap: usize)
    ensures
        final(q)@ == keep_last(old(q)@, cap as nat),
{
    let ghost s = q@;
    while q.len() > cap
        invariant
            s.len() >= q@.len(),
            q@ == s.skip(s.len() - q@.len()),
            s.len() > cap ==> q@.len() >= cap,
            s.len() <= cap ==> q@ == s,
        decreases q@.len(),
    {
        let ghost before = q@;
        q.pop_front();
        assert(q@ == s.skip(s.len() - q@.len()));
    }
    assert(q@ == s.skip(0) || s.len() > cap);
}

/// The CPU share computed in integers: `busy * 100000 / (dt * cpus)` rounded.
fn cpu_permille_exec(busy: u64, dt: u64, cpus: u32) -> (r: u64)
    requires
        dt > 0,
        cpus > 0,
    ensures
        r == cpu_permille(busy as nat, dt as nat, cpus as nat),
        r <= 1000,
{
    assert((dt as int) * (cpus as int) <= 0xffff_ffff_ffff_ffff * 0xffff_ffff) by (nonlinear_arith)
        requires
            dt <= 0xffff_ffff_ffff_ffffu64,
            cpus <= 0xffff_ffffu32,
    ;
    let num: u128 = busy as u128 * 100_000;
    let den: u128 = dt as u128 * cpus as u128;
    assert(den > 0) by (nonlinear_arith)
        requires
            dt > 0,
            cpus > 0,
            den == dt * cpus,
    ;
    assert(num * 2 + den <= u128::MAX) by (nonlinear_arith)
        requires
            num == busy * 100_000,
            den == dt * cpus,
            busy <= u64::MAX,
            dt <= u64::MAX,
            cpus <= u32::MAX,
    ;
    let r = (2 * num + den) / (2 * den);
    if r > 1000 {
        1000
    } else {
        r as u64
    }
}

impl MetricsHistory {
    /// Create a history retaining up to `capacity` samples (at least one).
    pub fn new(capacity: usize) -> (r: Self)
        ensures
            r@ == empty_history(capacity as nat),
    {
        let capacity = if capacity >= 1 {
            capacity
        } else {
            1
        };
        MetricsHistory {
            capacity,
            vmmem: VecDeque::with_capacity(capacity),
            vm_cpu: VecDeque::with_capacity(capacity),
            latest_vmmem: None,
            latest_vm_cpu_permille: None,
            total_mem_bytes: 0,
            prev_cpu: None,
        }
    }

    /// Record a new sample, dropping the oldest if at capacity. A "VM stopped"
    /// sample (`None`) is recorded as zero so the sparkline shows the dip.
    pub fn push(&mut self, sample: &MetricsSample)
        ensures
            final(self)@ == push_spec(old(self)@, *sample),
    {
        self.latest_vmmem = sample.vmmem_bytes;
        if sample.total_mem_bytes > 0 {
            self.total_mem_bytes = sample.total_mem_bytes;
        }
        let mem = match sample.vmmem_bytes {
            Some(b) => b,
            None => 0,
        };
        self.vmmem.push_back(mem);
        trim_to(&mut self.vmmem, self.capacity);
        self.push_cpu(sample);
    }

    /// Derive the VM CPU share from the delta against the previous sample and
    /// append it to the CPU sparkline. Pure arithmetic over the timestamps and
    /// tick counts handed in.
    fn push_cpu(&mut self, sample: &MetricsSample)
        ensures
            ({
                let (pct, prev) = cpu_step(
                    old(self).prev_cpu,
                    old(self).latest_vm_cpu_permille,
                    *sample,
                );
                let bar: u64 = match pct {
                    Some(p) => p,
                    None => 0,
                };
                &&& final(self).prev_cpu == prev
                &&& final(self).latest_vm_cpu_permille == pct
                &&& final(self).vm_cpu@ == keep_last(old(self).vm_cpu@.push(bar), old(self).capacity as nat)
                &&& final(self).capacity == old(self).capacity
                &&& final(self).vmmem@ == old(self).vmmem@
                &&& final(self).latest_vmmem == old(self).latest_vmmem
                &&& final(self).total_mem_bytes == old(self).total_mem_bytes
            }),
    {
        let prev_pct = self.latest_vm_cpu_permille;
        let pct = match (sample.vm_cpu_100ns, sample.taken_at) {
            (Some(curr_ticks), Some(now)) => {
                let cpus: u32 = if sample.logical_cpus == 0 {
                    1
                } else {
                    sample.logical_cpus
                };
                let computed = match self.prev_cpu {
                    Some((prev_ticks, prev_t)) => {
                        let dt = now.saturating_sub(prev_t);
                        if dt > 0 {
                            let busy = curr_ticks.saturating_sub(prev_ticks);
                            Some(cpu_permille_exec(busy, dt, cpus))
                        } else {
                            prev_pct
                        }
                    },
                    None => None,
                };
                self.prev_cpu = Some((curr_ticks, now));
                computed
            },
            _ => {
                self.prev_cpu = None;
                None
            },
        };
        self.latest_vm_cpu_permille = pct;
        let bar = match pct {
            Some(p) => p,
            None => 0,
        };
        self.vm_cpu.push_back(bar);
        trim_to(&mut self.vm_cpu, self.capacity);
    }

    /// The CPU history, oldest first (values in tenths of a percent).
    pub fn cpu_sparkline(&self) -> (r: Vec<u64>)
        ensures
            r@ == self@.vm_cpu,
    {
        deque_to_vec(&self.vm_cpu)
    }

    /// The VM memory history, oldest first.
    pub fn sparkline(&self) -> (r: Vec<u64>)
        ensures
            r@ == self@.vmmem,
    {
        deque_to_vec(&self.vmmem)
    }

    /// The most recent VM memory reading (`None` if the VM is not running).
    pub fn latest_vmmem(&self) -> (r: Option<u64>)
        ensures
            r == self@.latest_vmmem,
    {
        self.latest_vmmem
    }

    /// The most recent VM CPU share in tenths of a percent (0..=1000), or
    /// `None` until a second sample exists or while the VM is stopped.
    pub fn latest_vm_cpu_permille(&self) -> (r: Option<u64>)
        ensures
            r == self@.latest_vm_cpu_permille,
    {
        self.latest_vm_cpu_permille
    }

    /// Total physical memory, in bytes (zero until a sample reported it).
    pub fn total_mem(&self) -> (r: u64)
        ensures
            r == self@.total_mem_bytes,
    {
        self.total_mem_bytes
    }

    /// Whether any samples have been recorded.
    pub fn is_empty(&self) -> (r: bool)
        ensures
            r == (self@.vmmem.len() == 0),
    {
        self.vmmem.len() == 0
    }
}

// ---------------------------------------------------------------------------
// Laws
// ---------------------------------------------------------------------------
/// The history keeps at most `capacity` samples per sparkline, and the newest
/// reading is last (a stopped VM reads as zero).
pub proof fn law_history_is_bounded(h: HistoryView, s: MetricsSample)
    requires
        h.capacity >= 1,
    ensures
        push_spec(h, s).vmmem.len() <= h.capacity,
        push_spec(h, s).vm_cpu.len() <= h.capacity,
        push_spec(h, s).vmmem.last() == match s.vmmem_bytes {
            Some(b) => b,
            None => 0u64,
        },
        push_spec(h, s).vmmem.len() == if h.vmmem.len() + 1 <= h.capacity {
            h.vmmem.len() + 1
        } else {
            h.capacity
        },
{
}

/// The history holds the most recent readings in order: pushing drops the
/// oldest reading only when full.
pub proof fn law_history_keeps_recent(h: HistoryView, s: MetricsSample)
    requires
        h.capacity >= 1,
        h.vmmem.len() <= h.capacity,
    ensures
        h.vmmem.len() < h.capacity ==> push_spec(h, s).vmmem.drop_last() == h.vmmem,
        h.vmmem.len() == h.capacity ==> push_spec(h, s).vmmem.drop_last() == h.vmmem.drop_first(),
{
    let m: u64 = match s.vmmem_bytes {
        Some(b) => b,
        None => 0,
    };
    if h.vmmem.len() == h.capacity {
        assert(h.vmmem.push(m).skip(1).drop_last() =~= h.vmmem.drop_first());
    } else {
        assert(h.vmmem.push(m).drop_last() =~= h.vmmem);
    }
}

/// The VM CPU share never exceeds the whole host.
pub proof fn law_cpu_share_at_most_full(h: HistoryView, s: MetricsSample)
    requires
        match h.latest_vm_cpu_permille {
            Some(p) => p <= 1000,
            None => true,
        },
    ensures
        match push_spec(h, s).latest_vm_cpu_permille {
            Some(p) => p <= 1000,
            None => true,
        },
{
}

/// After a stopped-VM sample, the next sample yields no CPU share: a restart
/// is never measured against the counter from before the stop.
pub proof fn law_stopped_vm_resets_cpu_delta(h: HistoryView, s1: MetricsSample, s2: MetricsSample)
    requires
        s1.vm_cpu_100ns is None,
    ensures
        push_spec(h, s1).latest_vm_cpu_permille is None,
        push_spec(push_spec(h, s1), s2).latest_vm_cpu_permille is None,
{
}

fn deque_to_vec(q: &VecDeque<u64>) -> (r: Vec<u64>)
    ensures
        r@ == q@,
{
    let mut out: Vec<u64> = Vec::new();
    let mut i: usize = 0;
    while i < q.len()
        invariant
            i <= q@.len(),
            out@ == q@.take(i as int),
        decreases q@.len() - i,
    {
        out.push(q[i]);
        i = i + 1;
        assert(q@.take(i as int) == q@.take((i - 1) as int).push(q@[i - 1]));
    }
    assert(q@.take(q@.len() as int) == q@);
    out
}

} // verus!
