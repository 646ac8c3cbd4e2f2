use better_bar::battery::{
    battery_css_class, battery_level_icon, battery_seconds_remaining, battery_state_from_code,
    find_battery_path,
    format_battery_text, format_battery_tooltip, format_time_label, get_battery_icon,
    quantity_to_duration, state_to_str, BatteryConfig, BatteryState,
};

#[test]
fn states_have_their_words() {
    assert_eq!(state_to_str(BatteryState::Charging), "Charging");
    assert_eq!(state_to_str(BatteryState::Discharging), "Discharging");
    assert_eq!(state_to_str(BatteryState::Empty), "Empty");
    assert_eq!(state_to_str(BatteryState::Full), "Full");
    assert_eq!(state_to_str(BatteryState::Unknown), "Unknown");
}

#[test]
fn state_codes_map_exhaustively() {
    assert_eq!(battery_state_from_code(1), BatteryState::Charging);
    assert_eq!(battery_state_from_code(2), BatteryState::Discharging);
    assert_eq!(battery_state_from_code(3), BatteryState::Empty);
    assert_eq!(battery_state_from_code(4), BatteryState::Full);
    assert_eq!(battery_state_from_code(0), BatteryState::Unknown);
    assert_eq!(battery_state_from_code(99), BatteryState::Unknown);
}

#[test]
fn icons_follow_percentage_bands() {
    assert_eq!(get_battery_icon(95, true), "battery-full-charging-symbolic");
    assert_eq!(get_battery_icon(95, false), "battery-full-symbolic");
    assert_eq!(get_battery_icon(75, false), "battery-good-symbolic");
    assert_eq!(get_battery_icon(45, true), "battery-medium-charging-symbolic");
    assert_eq!(get_battery_icon(15, false), "battery-low-symbolic");
    assert_eq!(get_battery_icon(5, false), "battery-caution-symbolic");
    assert_eq!(get_battery_icon(-1, false), "battery-missing-symbolic");
    assert_eq!(get_battery_icon(101, true), "battery-missing-symbolic");
}

#[test]
fn full_charge_ignores_time_to_full() {
    // state Charging at a hundred percent: the time is ignored and the
    // label resolves to the word, not a numeric time
    let label = format_time_label(100, BatteryState::Charging, Some(5400), None);
    assert_eq!(label, "Full");
}

#[test]
fn charging_labels_render_hours_and_minutes() {
    assert_eq!(format_time_label(50, BatteryState::Charging, Some(7380), None), "Full in 02:03");
    assert_eq!(format_time_label(50, BatteryState::Charging, Some(300), None), "Full in 5m");
    assert_eq!(format_time_label(50, BatteryState::Charging, None, None), "Full in Unknown");
}

#[test]
fn discharging_labels_render_hours_and_minutes() {
    assert_eq!(
        format_time_label(50, BatteryState::Discharging, None, Some(3660)),
        "Empty in 01:01"
    );
    assert_eq!(format_time_label(50, BatteryState::Discharging, None, Some(59)), "Empty in 0m");
    assert_eq!(format_time_label(50, BatteryState::Discharging, None, None), "Empty in Unknown");
}

#[test]
fn other_states_have_fixed_labels() {
    assert_eq!(format_time_label(50, BatteryState::Full, Some(1), Some(2)), "Full");
    assert_eq!(format_time_label(50, BatteryState::Unknown, Some(1), Some(2)), "Unknown");
    assert_eq!(format_time_label(50, BatteryState::Empty, Some(1), Some(2)), "Unknown");
}

#[test]
fn templates_substitute_every_token() {
    let config = BatteryConfig {
        format: "{percentage} {state} {time}{icon}".to_string(),
        tooltip_format: "{state}".to_string(),
        tooltip: true,
    };
    let text = format_battery_text(42, BatteryState::Discharging, None, Some(60), &config);
    assert_eq!(text, "42% Discharging Empty in 1m");
    let tip = format_battery_tooltip(42, BatteryState::Discharging, None, Some(60), &config);
    assert_eq!(tip, "Discharging");
}

#[test]
fn unknown_tokens_stay_untouched() {
    let config = BatteryConfig {
        format: "{foo} {percentage}".to_string(),
        tooltip_format: String::new(),
        tooltip: false,
    };
    let text = format_battery_text(7, BatteryState::Full, None, None, &config);
    assert_eq!(text, "{foo} 7%");
}

#[test]
fn default_config_has_the_builtin_templates() {
    let c = BatteryConfig::default();
    assert_eq!(c.format, "{percentage}");
    assert_eq!(c.tooltip_format, "{state}, {time}");
    assert!(c.tooltip);
}

#[test]
fn level_icons_follow_thresholds() {
    assert_eq!(battery_level_icon(10), "battery-empty");
    assert_eq!(battery_level_icon(20), "battery-low");
    assert_eq!(battery_level_icon(50), "battery-medium");
    assert_eq!(battery_level_icon(90), "battery-full");
}

#[test]
fn css_classes_follow_thresholds() {
    assert_eq!(battery_css_class(10), Some("critical"));
    assert_eq!(battery_css_class(20), Some("warning"));
    assert_eq!(battery_css_class(50), None);
}

#[test]
fn battery_device_is_found_by_name() {
    let paths = vec![
        "/org/freedesktop/UPower/devices/line_power_AC".to_string(),
        "/org/freedesktop/UPower/devices/battery_BAT0".to_string(),
    ];
    assert_eq!(find_battery_path(&paths), Some(1));
    let none = vec!["/org/freedesktop/UPower/devices/line_power_AC".to_string()];
    assert_eq!(find_battery_path(&none), None);
    assert_eq!(find_battery_path(&Vec::new()), None);
}

#[test]
fn time_quantities_pass_through_in_seconds() {
    assert_eq!(quantity_to_duration(Some(90)), Some(90));
    assert_eq!(quantity_to_duration(None), None);
}

#[test]
fn seconds_remaining_follows_the_state() {
    assert_eq!(
        battery_seconds_remaining(BatteryState::Charging, Some(120), Some(999)),
        Some(120)
    );
    assert_eq!(
        battery_seconds_remaining(BatteryState::Discharging, Some(120), Some(999)),
        Some(999)
    );
    assert_eq!(battery_seconds_remaining(BatteryState::Full, Some(1), Some(2)), None);
    assert_eq!(battery_seconds_remaining(BatteryState::Unknown, Some(1), Some(2)), None);
}
