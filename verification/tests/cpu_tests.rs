use better_bar::cpu::{cpu_css_class, CpuMonitor, CpuStats};

#[test]
fn parses_full_stat_line() {
    let content = "cpu  100 200 300 400 500 600 700 800\ncpu0 1 2 3 4 5 6 7 8\n";
    let st = CpuMonitor::parse_proc_stat(content).unwrap();
    assert_eq!(
        st,
        CpuStats {
            user: 100,
            nice: 200,
            system: 300,
            idle: 400,
            iowait: 500,
            irq: 600,
            softirq: 700,
            steal: 800,
        }
    );
}

#[test]
fn missing_trailing_fields_default_to_zero() {
    let st = CpuMonitor::parse_proc_stat("cpu 1 2 3 4").unwrap();
    assert_eq!(st.iowait, 0);
    assert_eq!(st.irq, 0);
    assert_eq!(st.softirq, 0);
    assert_eq!(st.steal, 0);
    assert_eq!(st.idle, 4);
}

#[test]
fn empty_snapshot_is_an_error() {
    let e = CpuMonitor::parse_proc_stat("").unwrap_err();
    assert_eq!(e, "Empty /proc/stat file");
}

#[test]
fn malformed_field_is_a_parse_error() {
    let e = CpuMonitor::parse_proc_stat("cpu a b c d").unwrap_err();
    assert_eq!(e, "Failed to parse CPU values");
}

#[test]
fn too_few_fields_is_an_error() {
    let e = CpuMonitor::parse_proc_stat("cpu 1 2 3").unwrap_err();
    assert_eq!(e, "Not enough CPU stats in /proc/stat");
}

#[test]
fn first_sample_reports_zero() {
    let mut m = CpuMonitor::new();
    let u = m.get_cpu_usage("cpu 100 0 0 800 100 0 0 0").unwrap();
    assert_eq!(u, 0);
}

#[test]
fn usage_is_delta_ratio() {
    let mut m = CpuMonitor::new();
    m.get_cpu_usage("cpu 100 0 0 800 100 0 0 0").unwrap();
    // total delta 1000, active delta 100 -> 10 percent
    let u = m.get_cpu_usage("cpu 200 0 0 1600 200 0 0 0").unwrap();
    assert_eq!(u, 10);
}

#[test]
fn usage_stays_in_percentage_range() {
    let snapshots = [
        "cpu 0 0 0 0 0 0 0 0",
        "cpu 5 5 5 5 5 5 5 5",
        "cpu 100 0 0 0 0 0 0 0",
        "cpu 90 10 0 3 1 0 0 0",
        "cpu 18446744073709551615 0 0 0 0 0 0 0",
    ];
    let mut m = CpuMonitor::new();
    for s in snapshots {
        let u = m.get_cpu_usage(s).unwrap();
        assert!(u <= 100);
    }
}

#[test]
fn counter_regression_reports_zero() {
    let mut m = CpuMonitor::new();
    m.get_cpu_usage("cpu 100 0 0 100 0 0 0 0").unwrap();
    // new totals are below the previous ones: the saturating delta is zero
    let u = m.get_cpu_usage("cpu 50 0 0 50 0 0 0 0").unwrap();
    assert_eq!(u, 0);
}

#[test]
fn no_time_passed_reports_zero() {
    let mut m = CpuMonitor::new();
    m.get_cpu_usage("cpu 10 0 0 10 0 0 0 0").unwrap();
    let u = m.get_cpu_usage("cpu 10 0 0 10 0 0 0 0").unwrap();
    assert_eq!(u, 0);
}

#[test]
fn five_consecutive_errors_degrade_to_zero() {
    let mut m = CpuMonitor::new();
    for _ in 0..4 {
        assert_eq!(m.handle_error(), 50);
    }
    assert_eq!(m.handle_error(), 0);
    assert_eq!(m.handle_error(), 0);
}

#[test]
fn success_resets_the_error_count() {
    let mut m = CpuMonitor::new();
    for _ in 0..3 {
        m.handle_error();
    }
    m.get_cpu_usage("cpu 1 2 3 4").unwrap();
    assert_eq!(m.handle_error(), 50);
}

#[test]
fn totals_saturate_instead_of_wrapping() {
    let st = CpuStats {
        user: u64::MAX,
        nice: u64::MAX,
        system: 0,
        idle: 5,
        iowait: 0,
        irq: 0,
        softirq: 0,
        steal: 0,
    };
    assert_eq!(st.total(), u64::MAX);
    assert_eq!(st.active(), u64::MAX - 5);
}

#[test]
fn css_class_follows_thresholds() {
    assert_eq!(cpu_css_class(0), "low");
    assert_eq!(cpu_css_class(29), "low");
    assert_eq!(cpu_css_class(30), "medium");
    assert_eq!(cpu_css_class(69), "medium");
    assert_eq!(cpu_css_class(70), "high");
    assert_eq!(cpu_css_class(100), "high");
}

#[test]
fn plus_signed_fields_parse() {
    let st = CpuMonitor::parse_proc_stat("cpu +1 +2 +3 +4").unwrap();
    assert_eq!(st.user, 1);
    assert_eq!(st.idle, 4);
}

#[test]
fn overflowing_field_is_a_parse_error() {
    let e = CpuMonitor::parse_proc_stat("cpu 18446744073709551616 2 3 4").unwrap_err();
    assert_eq!(e, "Failed to parse CPU values");
}
