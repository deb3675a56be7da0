use wsl_manager_tui::display::{
    centered, gauge_fill, human_size, pad_display, truncate_width, usage_level, UsageLevel,
};

#[test]
fn truncate_width_respects_cjk_columns() {
    assert_eq!(truncate_width("short", 10), "short");
    assert_eq!(truncate_width("abcdef", 4), "abc…");
    assert_eq!(truncate_width("あいう", 5), "あい…");
}

#[test]
fn truncate_width_zero_budget_and_exact_fit() {
    assert_eq!(truncate_width("abc", 0), "");
    assert_eq!(truncate_width("abc", 3), "abc");
    assert_eq!(truncate_width("あい", 3), "あ…");
    assert_eq!(truncate_width("あい", 2), "…");
}

#[test]
fn human_size_formats() {
    assert_eq!(human_size(512), "512 B");
    assert_eq!(human_size(4 * 1024 * 1024 * 1024), "4.0 GB");
    assert_eq!(human_size(1536), "1.5 KB");
}

#[test]
fn human_size_unit_boundaries() {
    assert_eq!(human_size(0), "0 B");
    assert_eq!(human_size(1023), "1023 B");
    assert_eq!(human_size(1024), "1.0 KB");
    assert_eq!(human_size(1024 * 1024 - 1), "1024.0 KB");
    assert_eq!(human_size(1024 * 1024), "1.0 MB");
    assert_eq!(human_size(3 * 1024 * 1024 * 1024 * 1024), "3.0 TB");
    assert_eq!(human_size(5000 * 1024 * 1024 * 1024 * 1024), "5000.0 TB");
}

#[test]
fn human_size_rounds_halves_to_even() {
    // 1280 B is exactly 1.25 KB: the tie goes to the even tenth.
    assert_eq!(human_size(1280), "1.2 KB");
    // 1.35 KB is not exact in binary units' tenths: 1382 B = 1.3496 KB.
    assert_eq!(human_size(1382), "1.3 KB");
    assert_eq!(human_size(1383), "1.4 KB");
    // 3.75 KB = 3840 B, a tie that goes up to the even 3.8.
    assert_eq!(human_size(3840), "3.8 KB");
}

#[test]
fn pad_display_counts_columns() {
    assert_eq!(pad_display("ab", 4), "ab  ");
    assert_eq!(pad_display("あ", 4), "あ  ");
    assert_eq!(pad_display("abcdef", 4), "abcdef");
    assert_eq!(pad_display("", 0), "");
}

#[test]
fn usage_level_thresholds() {
    assert_eq!(usage_level(0, 1000), UsageLevel::Normal);
    assert_eq!(usage_level(749, 1000), UsageLevel::Normal);
    assert_eq!(usage_level(750, 1000), UsageLevel::Warning);
    assert_eq!(usage_level(899, 1000), UsageLevel::Warning);
    assert_eq!(usage_level(900, 1000), UsageLevel::Critical);
    assert_eq!(usage_level(1000, 1000), UsageLevel::Critical);
    assert_eq!(usage_level(5000, 1000), UsageLevel::Critical);
}

#[test]
fn gauge_fill_rounds_down_and_caps() {
    assert_eq!(gauge_fill(0, 100, 14), 0);
    assert_eq!(gauge_fill(50, 100, 14), 7);
    assert_eq!(gauge_fill(99, 100, 14), 13);
    assert_eq!(gauge_fill(100, 100, 14), 14);
    assert_eq!(gauge_fill(250, 100, 14), 14);
}

#[test]
fn centered_shrinks_and_centres() {
    assert_eq!(centered(0, 100, 40), (30, 40));
    assert_eq!(centered(10, 20, 30), (10, 20));
    assert_eq!(centered(5, 11, 4), (8, 4));
}
