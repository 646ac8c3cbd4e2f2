use better_bar::memory::{
    format_memory_display, memory_css_class, parse_arc_size, MemoryDisplayMode, MemoryMonitor,
    MemoryStats,
};

#[test]
fn reads_total_and_available() {
    let mut m = MemoryMonitor::new();
    let st = m
        .get_memory_stats("MemTotal:       1000 kB\nMemAvailable:   400 kB\n", 100)
        .unwrap();
    assert_eq!(st._total, 1000);
    assert_eq!(st._available, 400);
    assert_eq!(st._zfs_size, 100);
    assert_eq!(st._used, 700);
    assert_eq!(st.used(), 700);
}

#[test]
fn missing_keys_default_to_zero() {
    let mut m = MemoryMonitor::new();
    let st = m.get_memory_stats("SwapTotal: 5 kB\n", 0).unwrap();
    assert_eq!(st._total, 0);
    assert_eq!(st._available, 0);
    assert_eq!(st._used, 0);
}

#[test]
fn empty_snapshot_is_not_fatal() {
    let mut m = MemoryMonitor::new();
    let st = m.get_memory_stats("", 7).unwrap();
    assert_eq!(st._total, 0);
    assert_eq!(st._used, 7);
}

#[test]
fn later_duplicate_key_wins() {
    let mut m = MemoryMonitor::new();
    let st = m.get_memory_stats("MemTotal: 1 kB\nMemTotal: 2 kB\n", 0).unwrap();
    assert_eq!(st._total, 2);
}

#[test]
fn malformed_value_is_skipped() {
    let mut m = MemoryMonitor::new();
    let st = m.get_memory_stats("MemTotal: abc kB\nMemTotal: 5 kB\n", 0).unwrap();
    assert_eq!(st._total, 5);
    let st2 = m.get_memory_stats("MemTotal: abc kB\n", 0).unwrap();
    assert_eq!(st2._total, 0);
}

#[test]
fn zero_total_gives_zero_percentages() {
    let st = MemoryStats { _total: 0, _available: 123, _used: 456, _zfs_size: 0 };
    assert_eq!(st.used_percentage(), 0);
    assert_eq!(st.available_percentage(), 0);
}

#[test]
fn percentages_are_exact() {
    let st = MemoryStats { _total: 1000, _available: 300, _used: 700, _zfs_size: 0 };
    assert_eq!(st.used_percentage(), 70);
    assert_eq!(st.available_percentage(), 30);
}

#[test]
fn format_bytes_renders_tenths_of_gigabytes() {
    assert_eq!(MemoryStats::format_bytes(1048576), "1.0 GB");
    assert_eq!(MemoryStats::format_bytes(1572864), "1.5 GB");
    assert_eq!(MemoryStats::format_bytes(0), "0.0 GB");
    assert_eq!(MemoryStats::format_bytes(-1048576), "-1.0 GB");
    assert_eq!(MemoryStats::format_bytes(8238080), "7.9 GB");
}

#[test]
fn handle_error_reports_zeroed_counters() {
    let m = MemoryMonitor::new();
    let st = m.handle_error();
    assert_eq!(st._total, 0);
    assert_eq!(st._available, 0);
    assert_eq!(st._used, 0);
    assert_eq!(st._zfs_size, 0);
}

#[test]
fn arc_size_takes_the_first_size_row() {
    let content = "name type data\nhits 4 99\nsize 4 1048576\nsize 4 4096\n";
    assert_eq!(parse_arc_size(content), 1024);
}

#[test]
fn arc_size_defaults_to_zero() {
    assert_eq!(parse_arc_size(""), 0);
    assert_eq!(parse_arc_size("hits 4 99\n"), 0);
    assert_eq!(parse_arc_size("size 4 notanumber\n"), 0);
}

#[test]
fn display_modes_render_their_labels() {
    let st = MemoryStats { _total: 2097152, _available: 1048576, _used: 1048576, _zfs_size: 0 };
    assert_eq!(format_memory_display(&st, MemoryDisplayMode::_UsedOnly), "RAM: 1.0 GB");
    assert_eq!(
        format_memory_display(&st, MemoryDisplayMode::_UsedWithTotal),
        "RAM: 1.0 GB / 2.0 GB"
    );
    assert_eq!(format_memory_display(&st, MemoryDisplayMode::_UsedPercentage), "RAM: 50%");
    assert_eq!(format_memory_display(&st, MemoryDisplayMode::_Available), "RAM: 1.0 GB available");
    assert_eq!(
        format_memory_display(&st, MemoryDisplayMode::_AvailablePercentage),
        "RAM: 50% available"
    );
    assert_eq!(
        format_memory_display(&st, MemoryDisplayMode::_Detailed),
        "Used: 1.0 GB, Available: 1.0 GB"
    );
}

#[test]
fn memory_css_class_follows_thresholds() {
    assert_eq!(memory_css_class(49), "low");
    assert_eq!(memory_css_class(50), "medium");
    assert_eq!(memory_css_class(79), "medium");
    assert_eq!(memory_css_class(80), "high");
}

#[test]
fn negative_values_parse_and_subtract() {
    let mut m = MemoryMonitor::new();
    let st = m.get_memory_stats("MemTotal: 10 kB\nMemAvailable: -5 kB\n", 0).unwrap();
    assert_eq!(st._available, -5);
    assert_eq!(st._used, 15);
}
