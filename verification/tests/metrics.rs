use wsl_manager_tui::metrics::{
    classify_vm, process_cpu_100ns, select_vm_cpu_ticks, select_vm_working_set, MetricsHistory,
    MetricsSample, VmCandidate, VmKind,
};

#[test]
fn classify_vm_distinguishes_wsl_from_legacy() {
    assert_eq!(classify_vm("vmmemWSL"), Some(VmKind::Wsl));
    assert_eq!(classify_vm("vmmemWSL.exe"), Some(VmKind::Wsl));
    assert_eq!(classify_vm("VMMEMWSL"), Some(VmKind::Wsl));
    assert_eq!(classify_vm("vmmem"), Some(VmKind::Legacy));
    assert_eq!(classify_vm("vmmem.exe"), Some(VmKind::Legacy));
    assert_eq!(classify_vm("explorer.exe"), None);
    assert_eq!(classify_vm("memcached"), None);
}

#[test]
fn classify_vm_suffix_is_case_sensitive() {
    assert_eq!(classify_vm("vmmem.EXE"), None);
}

fn cand(kind: VmKind, working_set: u64, cpu_100ns: u64) -> VmCandidate {
    VmCandidate { kind, working_set, cpu_100ns }
}

#[test]
fn select_prefers_wsl_over_legacy_vmmem() {
    let candidates = [cand(VmKind::Legacy, 52_236_288, 10), cand(VmKind::Wsl, 2_579_218_432, 99)];
    assert_eq!(select_vm_working_set(&candidates), Some(2_579_218_432));
}

#[test]
fn select_falls_back_to_legacy_vmmem() {
    let candidates = [cand(VmKind::Legacy, 1_234, 7)];
    assert_eq!(select_vm_working_set(&candidates), Some(1_234));
}

#[test]
fn select_returns_none_when_no_vm_present() {
    assert_eq!(select_vm_working_set(&[]), None);
}

#[test]
fn select_cpu_prefers_wsl_over_legacy_vmmem() {
    let candidates = [cand(VmKind::Legacy, 10, 111), cand(VmKind::Wsl, 20, 222)];
    assert_eq!(select_vm_cpu_ticks(&candidates), Some(222));
}

#[test]
fn select_cpu_falls_back_to_legacy_vmmem() {
    let candidates = [cand(VmKind::Legacy, 10, 333)];
    assert_eq!(select_vm_cpu_ticks(&candidates), Some(333));
}

#[test]
fn select_cpu_returns_none_when_no_vm_present() {
    assert_eq!(select_vm_cpu_ticks(&[]), None);
}

#[test]
fn history_is_a_ring_buffer() {
    let mut history = MetricsHistory::new(3);
    for value in [10, 20, 30, 40] {
        history.push(&MetricsSample {
            vmmem_bytes: Some(value),
            total_mem_bytes: 100,
            ..Default::default()
        });
    }
    assert_eq!(history.sparkline(), vec![20, 30, 40]);
    assert_eq!(history.latest_vmmem(), Some(40));
    assert_eq!(history.total_mem(), 100);
}

#[test]
fn history_records_stopped_vm_as_zero() {
    let mut history = MetricsHistory::new(5);
    history.push(&MetricsSample { vmmem_bytes: None, total_mem_bytes: 100, ..Default::default() });
    assert_eq!(history.sparkline(), vec![0]);
    assert_eq!(history.latest_vmmem(), None);
}

#[test]
fn history_capacity_is_at_least_one() {
    let mut history = MetricsHistory::new(0);
    assert!(history.is_empty());
    history.push(&MetricsSample { vmmem_bytes: Some(1), ..Default::default() });
    history.push(&MetricsSample { vmmem_bytes: Some(2), ..Default::default() });
    assert_eq!(history.sparkline(), vec![2]);
    assert!(!history.is_empty());
}

#[test]
fn zero_total_keeps_previous_total() {
    let mut history = MetricsHistory::default();
    history.push(&MetricsSample { total_mem_bytes: 8, ..Default::default() });
    history.push(&MetricsSample { total_mem_bytes: 0, ..Default::default() });
    assert_eq!(history.total_mem(), 8);
}

#[test]
fn process_cpu_100ns_sums_user_and_kernel_excluding_create_time() {
    let mut reserved = [0u8; 48];
    reserved[24..32].copy_from_slice(&i64::MAX.to_le_bytes());
    reserved[32..40].copy_from_slice(&5_000_000i64.to_le_bytes());
    reserved[40..48].copy_from_slice(&3_000_000i64.to_le_bytes());
    assert_eq!(process_cpu_100ns(&reserved), 8_000_000);
}

#[test]
fn process_cpu_100ns_clamps_negative_and_saturates() {
    let mut reserved = [0u8; 48];
    reserved[32..40].copy_from_slice(&(-7i64).to_le_bytes());
    reserved[40..48].copy_from_slice(&3i64.to_le_bytes());
    assert_eq!(process_cpu_100ns(&reserved), 0);
    reserved[32..40].copy_from_slice(&i64::MAX.to_le_bytes());
    reserved[40..48].copy_from_slice(&i64::MAX.to_le_bytes());
    assert_eq!(process_cpu_100ns(&reserved), i64::MAX as u64);
}

const SECOND: u64 = 1_000_000_000;

#[test]
fn computes_cpu_pct_from_consecutive_samples() {
    let mut history = MetricsHistory::new(5);
    let t0 = 7 * SECOND;
    history.push(&MetricsSample {
        vm_cpu_100ns: Some(0),
        taken_at: Some(t0),
        logical_cpus: 4,
        ..Default::default()
    });
    assert_eq!(history.latest_vm_cpu_permille(), None);
    history.push(&MetricsSample {
        vm_cpu_100ns: Some(20_000_000),
        taken_at: Some(t0 + SECOND),
        logical_cpus: 4,
        ..Default::default()
    });
    let pct = history.latest_vm_cpu_permille().expect("pct after second sample") as f32 / 10.0;
    assert!((pct - 50.0).abs() < 0.01, "expected ~50%, got {pct}");
    assert_eq!(history.cpu_sparkline(), vec![0, 500]);
}

#[test]
fn cpu_pct_is_clamped_to_100() {
    let mut history = MetricsHistory::new(5);
    let t0 = SECOND;
    history.push(&MetricsSample {
        vm_cpu_100ns: Some(0),
        taken_at: Some(t0),
        logical_cpus: 2,
        ..Default::default()
    });
    history.push(&MetricsSample {
        vm_cpu_100ns: Some(1_000_000_000),
        taken_at: Some(t0 + SECOND),
        logical_cpus: 2,
        ..Default::default()
    });
    assert_eq!(history.latest_vm_cpu_permille(), Some(1000));
}

#[test]
fn stopped_vm_clears_cpu_and_resets_delta() {
    let mut history = MetricsHistory::new(5);
    let t0 = SECOND;
    history.push(&MetricsSample {
        vm_cpu_100ns: Some(0),
        taken_at: Some(t0),
        logical_cpus: 4,
        ..Default::default()
    });
    history.push(&MetricsSample {
        vm_cpu_100ns: Some(20_000_000),
        taken_at: Some(t0 + SECOND),
        logical_cpus: 4,
        ..Default::default()
    });
    assert!(history.latest_vm_cpu_permille().is_some());
    history.push(&MetricsSample {
        vm_cpu_100ns: None,
        taken_at: Some(t0 + 2 * SECOND),
        logical_cpus: 4,
        ..Default::default()
    });
    assert_eq!(history.latest_vm_cpu_permille(), None);
    assert_eq!(*history.cpu_sparkline().last().unwrap(), 0);
    history.push(&MetricsSample {
        vm_cpu_100ns: Some(999_999_999),
        taken_at: Some(t0 + 3 * SECOND),
        logical_cpus: 4,
        ..Default::default()
    });
    assert_eq!(history.latest_vm_cpu_permille(), None);
}

#[test]
fn cpu_pct_unchanged_on_same_instant_sample() {
    let mut history = MetricsHistory::new(5);
    let t0 = SECOND;
    history.push(&MetricsSample {
        vm_cpu_100ns: Some(0),
        taken_at: Some(t0),
        logical_cpus: 4,
        ..Default::default()
    });
    let t1 = t0 + SECOND;
    history.push(&MetricsSample {
        vm_cpu_100ns: Some(20_000_000),
        taken_at: Some(t1),
        logical_cpus: 4,
        ..Default::default()
    });
    let pct = history.latest_vm_cpu_permille().expect("pct after second sample");
    history.push(&MetricsSample {
        vm_cpu_100ns: Some(50_000_000),
        taken_at: Some(t1),
        logical_cpus: 4,
        ..Default::default()
    });
    assert_eq!(history.latest_vm_cpu_permille(), Some(pct));
}

#[test]
fn cpu_share_rounds_to_nearest_tenth_and_zero_cpus_counts_as_one() {
    let mut history = MetricsHistory::new(5);
    history.push(&MetricsSample {
        vm_cpu_100ns: Some(0),
        taken_at: Some(0),
        logical_cpus: 0,
        ..Default::default()
    });
    // 0.12345 s busy over 1 s on one CPU: 12.345% -> 123 tenths.
    history.push(&MetricsSample {
        vm_cpu_100ns: Some(1_234_500),
        taken_at: Some(SECOND),
        logical_cpus: 0,
        ..Default::default()
    });
    assert_eq!(history.latest_vm_cpu_permille(), Some(123));
}
