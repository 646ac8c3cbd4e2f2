use better_bar::netparse::{
    get_active_interface, get_wifi_frequency, get_wifi_name, get_wifi_signal_strength,
    parse_default_route, parse_first_interface, parse_ip_output,
};
use better_bar::network::{
    build_network_info, classify_interface, format_bytes, format_network_text,
    format_network_tooltip, get_network_icon, get_network_info, get_wifi_icon,
    get_network_speeds, NetworkConfig, NetworkInfo, NetworkKind, NmConnection,
};

#[test]
fn interfaces_classify_by_prefix() {
    assert_eq!(classify_interface("wlan0"), NetworkKind::Wifi);
    assert_eq!(classify_interface("wlp3s0"), NetworkKind::Wifi);
    assert_eq!(classify_interface("uwifi1"), NetworkKind::Wifi);
    assert_eq!(classify_interface("enp0s3"), NetworkKind::Ethernet);
    assert_eq!(classify_interface("eth0"), NetworkKind::Ethernet);
    assert_eq!(classify_interface("lo"), NetworkKind::Other);
    assert_eq!(classify_interface("tun0"), NetworkKind::Other);
}

#[test]
fn default_route_names_its_device() {
    let out = "default via 192.168.1.1 dev wlan0 proto dhcp metric 600\n";
    assert_eq!(parse_default_route(out), Some("wlan0".to_string()));
    assert_eq!(parse_default_route(""), None);
    assert_eq!(parse_default_route("default via 192.168.1.1 dev\n"), None);
    assert_eq!(parse_default_route("10.0.0.0/8 dev eth1\n"), None);
}

#[test]
fn first_interface_skips_headers_and_loopback() {
    let out = "Inter-|   Receive\n face |bytes    packets\n    lo: 1 2\n  eth0: 3 4\n";
    assert_eq!(parse_first_interface(out), Some("eth0".to_string()));
    let only_lo = "h1\nh2\n    lo: 1 2\n";
    assert_eq!(parse_first_interface(only_lo), None);
}

#[test]
fn route_wins_over_first_interface() {
    let route = "default via 10.0.0.1 dev eth9\n";
    let devs = "h1\nh2\n  eth0: 1 1\n";
    assert_eq!(get_active_interface(route, devs), Some("eth9".to_string()));
    assert_eq!(get_active_interface("", devs), Some("eth0".to_string()));
    assert_eq!(get_active_interface("", "h1\nh2\n"), None);
}

#[test]
fn ip_address_is_cut_before_the_prefix() {
    let out = "2: wlan0: <UP>\n    inet 192.168.1.5/24 brd 192.168.1.255 scope global\n";
    assert_eq!(parse_ip_output(out), "192.168.1.5");
    let v6 = "    inet6 fe80::1/64 scope link\n";
    assert_eq!(parse_ip_output(v6), "0.0.0.0");
    assert_eq!(parse_ip_output(""), "0.0.0.0");
}

#[test]
fn wifi_name_comes_from_iwconfig_first() {
    let iw = "wlan0     IEEE 802.11  ESSID:\"MyNet\"  \n          Mode:Managed\n";
    assert_eq!(get_wifi_name(iw, ""), "MyNet");
}

#[test]
fn wifi_name_falls_back_to_nmcli() {
    let iw = "wlan0     IEEE 802.11  ESSID:off/any  \n";
    let nm = "no:OtherNet\nyes:HomeWifi\n";
    assert_eq!(get_wifi_name(iw, nm), "HomeWifi");
    assert_eq!(get_wifi_name(iw, "no:X\n"), "Unknown Network");
    assert_eq!(get_wifi_name("", ""), "Unknown Network");
}

#[test]
fn signal_strength_maps_dbm_to_percent() {
    let iw = "          Link Quality=70/70  Signal level=-80 dBm  \n";
    assert_eq!(get_wifi_signal_strength(iw, "", "wlan0"), 40);
    let strong = "          Signal level=-40 dBm\n";
    assert_eq!(get_wifi_signal_strength(strong, "", "wlan0"), 100);
}

#[test]
fn signal_strength_falls_back_to_kernel_statistics() {
    let wireless = "Inter-| sta-\n face | link level noise\n wlan0: 0000   54.  -256  -256\n";
    assert_eq!(get_wifi_signal_strength("", wireless, "wlan0"), 77);
    assert_eq!(get_wifi_signal_strength("", wireless, "eth0"), 0);
    assert_eq!(get_wifi_signal_strength("", "", "wlan0"), 0);
}

#[test]
fn kernel_statistics_signal_is_clamped_to_a_percentage() {
    // an overlarge quality value still yields a percentage
    let high = "h1\nh2\n wlan0: 0000   700.  -256  -256\n";
    assert_eq!(get_wifi_signal_strength("", high, "wlan0"), 100);
    // a negative quality value floors at zero
    let low = "h1\nh2\n wlan0: 0000   -5.  -256  -256\n";
    assert_eq!(get_wifi_signal_strength("", low, "wlan0"), 0);
}

#[test]
fn frequency_is_the_token_after_the_marker() {
    let iw = "wlan0  IEEE 802.11  Frequency:2.437 GHz  Access Point: AA:BB\n";
    assert_eq!(get_wifi_frequency(iw), "2.437");
    assert_eq!(get_wifi_frequency(""), "N/A");
}

#[test]
fn rates_render_with_their_units() {
    assert_eq!(format_bytes(512), "512 B/s");
    assert_eq!(format_bytes(1024), "1.0 KB/s");
    assert_eq!(format_bytes(1536), "1.5 KB/s");
    assert_eq!(format_bytes(1048576), "1.0 MB/s");
    assert_eq!(format_bytes(1073741824), "1.0 GB/s");
}

#[test]
fn speeds_come_from_the_counter_files() {
    let (down, up) = get_network_speeds(Some("2048000\n"), Some("1024000\n"));
    assert_eq!(down, "2.0 KB/s");
    assert_eq!(up, "1.0 KB/s");
    let (d2, u2) = get_network_speeds(None, Some("5"));
    assert_eq!(d2, "0 B/s");
    assert_eq!(u2, "0 B/s");
}

#[test]
fn no_interface_yields_the_disconnected_sample() {
    // no default route and no active non-loopback interface
    let info = build_network_info(
        None,
        String::new(),
        String::new(),
        0,
        String::new(),
        String::new(),
        String::new(),
    );
    assert!(!info.is_connected);
    assert_eq!(info.connection_type, "None");
    assert_eq!(info.signal_strength, 0);
    assert_eq!(info.ip_address, "-");
    assert_eq!(info.device, "No Device");
    assert_eq!(info.wifi_name, "Disconnected");
}

#[test]
fn wifi_interface_keeps_its_readings() {
    let info = build_network_info(
        Some("wlan0".to_string()),
        "192.168.1.5".to_string(),
        "MyNet".to_string(),
        64,
        "2.437".to_string(),
        "1.0 KB/s".to_string(),
        "2.0 KB/s".to_string(),
    );
    assert!(info.is_connected);
    assert_eq!(info.connection_type, "WiFi");
    assert_eq!(info.wifi_name, "MyNet");
    assert_eq!(info.signal_strength, 64);
    assert_eq!(info.frequency, "2.437");
}

#[test]
fn ethernet_interface_uses_fixed_readings() {
    let info = build_network_info(
        Some("eth0".to_string()),
        "0.0.0.0".to_string(),
        "ignored".to_string(),
        7,
        "ignored".to_string(),
        "0 B/s".to_string(),
        "0 B/s".to_string(),
    );
    assert!(!info.is_connected);
    assert_eq!(info.connection_type, "Ethernet");
    assert_eq!(info.wifi_name, "Wired Connection");
    assert_eq!(info.signal_strength, 100);
    assert_eq!(info.frequency, "-");
}

#[test]
fn icons_follow_the_sample() {
    let mut info = NetworkInfo::default();
    assert_eq!(get_network_icon(&info), "network-offline-symbolic");
    info.is_connected = true;
    info.connection_type = "WiFi".to_string();
    info.signal_strength = 80;
    assert_eq!(get_network_icon(&info), "network-wireless-signal-excellent-symbolic");
    info.signal_strength = 60;
    assert_eq!(get_network_icon(&info), "network-wireless-signal-good-symbolic");
    info.signal_strength = 30;
    assert_eq!(get_network_icon(&info), "network-wireless-signal-ok-symbolic");
    info.signal_strength = 10;
    assert_eq!(get_network_icon(&info), "network-wireless-signal-weak-symbolic");
    info.signal_strength = 0;
    assert_eq!(get_network_icon(&info), "network-wireless-signal-none-symbolic");
    info.connection_type = "Ethernet".to_string();
    assert_eq!(get_network_icon(&info), "network-wired-symbolic");
    info.connection_type = "None".to_string();
    assert_eq!(get_network_icon(&info), "network-error-symbolic");
}

#[test]
fn wifi_icons_follow_strength() {
    assert_eq!(get_wifi_icon(10), "\u{f091f}");
    assert_eq!(get_wifi_icon(40), "\u{f0922}");
    assert_eq!(get_wifi_icon(60), "\u{f0925}");
    assert_eq!(get_wifi_icon(90), "\u{f0928}");
}

#[test]
fn network_templates_substitute_every_token() {
    let info = NetworkInfo {
        device: "wlan0".to_string(),
        ip_address: "10.0.0.2".to_string(),
        wifi_name: "MyNet".to_string(),
        signal_strength: 55,
        connection_type: "WiFi".to_string(),
        is_connected: true,
        download_speed: "1.0 KB/s".to_string(),
        upload_speed: "2.0 KB/s".to_string(),
        frequency: "5.18".to_string(),
    };
    let config = NetworkConfig {
        format: "{name} {signal} {status}{icon}".to_string(),
        tooltip_format: "{device} {ip} {type} {download} {upload} {frequency}".to_string(),
        tooltip: true,
    };
    assert_eq!(format_network_text(&info, &config), "MyNet 55% Connected");
    assert_eq!(
        format_network_tooltip(&info, &config),
        "wlan0 10.0.0.2 WiFi 1.0 KB/s 2.0 KB/s 5.18"
    );
}

#[test]
fn service_status_prefers_the_first_activated_connection() {
    let cs = vec![
        NmConnection {
            conn_type: "802-11-wireless".to_string(),
            state: 1,
            ssid: Some("NotYet".to_string()),
            strength: 10,
        },
        NmConnection {
            conn_type: "802-11-wireless".to_string(),
            state: 2,
            ssid: Some("Net".to_string()),
            strength: 80,
        },
    ];
    assert_eq!(get_network_info(&cs, &Vec::new()), "\u{f0928} Net");
}

#[test]
fn service_status_reports_wired_links() {
    let cs = vec![NmConnection {
        conn_type: "802-3-ethernet".to_string(),
        state: 2,
        ssid: None,
        strength: 0,
    }];
    assert_eq!(get_network_info(&cs, &Vec::new()), "\u{f0201} Wired");
}

#[test]
fn service_status_reports_disconnection() {
    let devices_with_wifi = vec![(1u32, 100u32), (2u32, 20u32)];
    assert_eq!(
        get_network_info(&Vec::new(), &devices_with_wifi),
        "\u{f05aa} WiFi Disconnected"
    );
    assert_eq!(get_network_info(&Vec::new(), &Vec::new()), "\u{f05aa} Disconnected");
}
