//! The network sample model: interface classification, the assembled
//! sample, icon selection, throughput formatting and the label/tooltip
//! templates.
//!
//! Network absence is a normal state, not an error: every constructor here
//! falls back to an explicit disconnected sample.

use vstd::prelude::*;

use crate::text::{
    chars_eq, chars_of, contains_seq, dec_digits, dec_int, digit_str, digit_to_char,
    i64_to_string, is_u64_token, replace_seq, replace_str, starts_with, starts_with_chars,
    trimmed, trim_bounds, u64_to_string, u64_token_val,
};
use vstd::string::StringExecFns;

verus! {

/// What kind of link an interface name denotes, by its prefix.
#[derive(Debug, Clone, Copy, PartialEq, Eq, Structural)]
pub enum NetworkKind {
    Wifi,
    Ethernet,
    Other,
}

/// Interface-name classification: wireless prefixes make a Wifi link,
/// ethernet prefixes a wired one, anything else stays unclassified.
pub open spec fn spec_classify(name: Seq<char>) -> NetworkKind {
    if starts_with(name, "wl"@) || contains_seq(name, "wifi"@) {
        NetworkKind::Wifi
    } else if starts_with(name, "en"@) || starts_with(name, "eth"@) {
        NetworkKind::Ethernet
    } else {
        NetworkKind::Other
    }
}

/// Runtime classification matching [`spec_classify`].
pub fn classify_interface(name: &str) -> (r: NetworkKind)
    ensures
        r == spec_classify(name@),
{
    let nv = chars_of(name);
    let wl = chars_of("wl");
    let wifi = chars_of("wifi");
    let en = chars_of("en");
    let eth = chars_of("eth");
    if starts_with_chars(&nv, &wl) || crate::text::contains_chars(&nv, &wifi) {
        NetworkKind::Wifi
    } else if starts_with_chars(&nv, &en) || starts_with_chars(&nv, &eth) {
        NetworkKind::Ethernet
    } else {
        NetworkKind::Other
    }
}

/// One network sample: everything the bar displays about the link.
#[derive(Debug, Clone)]
pub struct NetworkInfo {
    pub device: String,
    pub ip_address: String,
    pub wifi_name: String,
    pub signal_strength: i32,
    pub connection_type: String,
    pub is_connected: bool,
    pub download_speed: String,
    pub upload_speed: String,
    pub frequency: String,
}

impl Default for NetworkInfo {
    /// The neutral sample shown before any reading.
    fn default() -> (r: Self)
        ensures
            r.device@ == "No Device"@,
            r.ip_address@ == "0.0.0.0"@,
            r.wifi_name@ == "Disconnected"@,
            r.signal_strength == 0,
            r.connection_type@ == "None"@,
            !r.is_connected,
            r.download_speed@ == "0 B/s"@,
            r.upload_speed@ == "0 B/s"@,
            r.frequency@ == "N/A"@,
    {
        NetworkInfo {
            device: "No Device".to_owned(),
            ip_address: "0.0.0.0".to_owned(),
            wifi_name: "Disconnected".to_owned(),
            signal_strength: 0,
            connection_type: "None".to_owned(),
            is_connected: false,
            download_speed: "0 B/s".to_owned(),
            upload_speed: "0 B/s".to_owned(),
            frequency: "N/A".to_owned(),
        }
    }
}

/// Assembles the sample for one tick out of the already-read values. With
/// no active interface the sample is the explicit disconnected one:
/// no kind, no signal, a dash for the address. With one, the link kind
/// follows from the interface name, and the wireless readings are used
/// only on a wireless link.
pub fn build_network_info(
    interface: Option<String>,
    ip_address: String,
    wifi_name: String,
    signal_strength: i32,
    frequency: String,
    download_speed: String,
    upload_speed: String,
) -> (r: NetworkInfo)
    ensures
        (match interface {
            Option::None => {
                &&& r.device@ == "No Device"@
                &&& r.ip_address@ == "-"@
                &&& r.wifi_name@ == "Disconnected"@
                &&& r.signal_strength == 0
                &&& r.connection_type@ == "None"@
                &&& !r.is_connected
                &&& r.download_speed@ == "0 B/s"@
                &&& r.upload_speed@ == "0 B/s"@
                &&& r.frequency@ == "-"@
            },
            Option::Some(ifc) => {
                &&& r.device@ == ifc@
                &&& r.ip_address@ == ip_address@
                &&& r.is_connected == (ip_address@.len() > 0 && ip_address@ != "0.0.0.0"@)
                &&& r.download_speed@ == download_speed@
                &&& r.upload_speed@ == upload_speed@
                &&& (match spec_classify(ifc@) {
                    NetworkKind::Wifi => {
                        &&& r.connection_type@ == "WiFi"@
                        &&& r.wifi_name@ == wifi_name@
                        &&& r.signal_strength == signal_strength
                        &&& r.frequency@ == frequency@
                    },
                    NetworkKind::Ethernet => {
                        &&& r.connection_type@ == "Ethernet"@
                        &&& r.wifi_name@ == "Wired Connection"@
                        &&& r.signal_strength == 100
                        &&& r.frequency@ == "-"@
                    },
                    NetworkKind::Other => {
                        &&& r.connection_type@ == "None"@
                        &&& r.wifi_name@ == "Disconnected"@
                        &&& r.signal_strength == 0
                        &&& r.frequency@ == "N/A"@
                    },
                })
            },
        }),
{
    match interface {
        None => {
            NetworkInfo {
                device: "No Device".to_owned(),
                ip_address: "-".to_owned(),
                wifi_name: "Disconnected".to_owned(),
                signal_strength: 0,
                connection_type: "None".to_owned(),
                is_connected: false,
                download_speed: "0 B/s".to_owned(),
                upload_speed: "0 B/s".to_owned(),
                frequency: "-".to_owned(),
            }
        },
        Some(ifc) => {
            let ipv = chars_of(ip_address.as_str());
            let zero = chars_of("0.0.0.0");
            let connected = ipv.len() > 0 && !chars_eq(&ipv, &zero);
            match classify_interface(ifc.as_str()) {
                NetworkKind::Wifi => {
                    NetworkInfo {
                        device: ifc,
                        ip_address,
                        wifi_name,
                        signal_strength,
                        connection_type: "WiFi".to_owned(),
                        is_connected: connected,
                        download_speed,
                        upload_speed,
                        frequency,
                    }
                },
                NetworkKind::Ethernet => {
                    NetworkInfo {
                        device: ifc,
                        ip_address,
                        wifi_name: "Wired Connection".to_owned(),
                        signal_strength: 100,
                        connection_type: "Ethernet".to_owned(),
                        is_connected: connected,
                        download_speed,
                        upload_speed,
                        frequency: "-".to_owned(),
                    }
                },
                NetworkKind::Other => {
                    NetworkInfo {
                        device: ifc,
                        ip_address,
                        wifi_name: "Disconnected".to_owned(),
                        signal_strength: 0,
                        connection_type: "None".to_owned(),
                        is_connected: connected,
                        download_speed,
                        upload_speed,
                        frequency: "N/A".to_owned(),
                    }
                },
            }
        },
    }
}

/// The transfer rate rendered with a unit: whole bytes below a kilobyte,
/// else one decimal place in the matching unit, rounded to the nearest
/// tenth with ties away from zero.
pub open spec fn spec_format_rate(b: int) -> Seq<char> {
    if b < 1024 {
        dec_digits(b) + " B/s"@
    } else if b < 1048576 {
        rate_tenths(b, 1024) + " KB/s"@
    } else if b < 1073741824 {
        rate_tenths(b, 1048576) + " MB/s"@
    } else {
        rate_tenths(b, 1073741824) + " GB/s"@
    }
}

/// The quotient `b / d` in tenths, rounded half up, rendered with one
/// decimal place.
pub open spec fn rate_tenths(b: int, d: int) -> Seq<char> {
    let t = (b * 20 + d) / (2 * d);
    dec_digits(t / 10) + "."@ + seq![digit_to_char(t % 10)]
}

/// Renders a transfer rate, as [`spec_format_rate`] states.
pub fn format_bytes(bytes: u64) -> (s: String)
    ensures
        s@ == spec_format_rate(bytes as int),
{
    if bytes < 1024 {
        let mut s = u64_to_string(bytes);
        s.append(" B/s");
        proof {
            assert(s@ =~= spec_format_rate(bytes as int));
        }
        s
    } else if bytes < 1048576 {
        let mut s = rate_tenths_exec(bytes, 1024);
        s.append(" KB/s");
        proof {
            assert(s@ =~= spec_format_rate(bytes as int));
        }
        s
    } else if bytes < 1073741824 {
        let mut s = rate_tenths_exec(bytes, 1048576);
        s.append(" MB/s");
        proof {
            assert(s@ =~= spec_format_rate(bytes as int));
        }
        s
    } else {
        let mut s = rate_tenths_exec(bytes, 1073741824);
        s.append(" GB/s");
        proof {
            assert(s@ =~= spec_format_rate(bytes as int));
        }
        s
    }
}

/// Renders `b / d` with one decimal place.
fn rate_tenths_exec(b: u64, d: u64) -> (s: String)
    requires
        d >= 1024,
    ensures
        s@ == rate_tenths(b as int, d as int),
{
    let t = ((b as u128) * 20 + (d as u128)) / (2 * (d as u128));
    proof {
        let x = (b as int) * 20 + d;
        vstd::arithmetic::div_mod::lemma_div_is_ordered_by_denominator(x, 2048, 2 * (d as int));
        vstd::arithmetic::div_mod::lemma_div_is_ordered(
            x,
            (u64::MAX as int) * 20 + u64::MAX,
            2048,
        );
    }
    let whole = (t / 10) as u64;
    let frac = (t % 10) as u64;
    let mut s = u64_to_string(whole);
    s.append(".");
    s.append(digit_str(frac));
    proof {
        assert(s@ =~= rate_tenths(b as int, d as int));
    }
    s
}

/// The byte count a statistics file holds: its trimmed text read as a
/// number, zero when malformed.
pub open spec fn spec_byte_count(s: Seq<char>) -> int {
    let t = trimmed(s);
    if is_u64_token(t) {
        u64_token_val(t)
    } else {
        0
    }
}

/// Reads a byte-counter file's text, defaulting to zero.
pub fn parse_byte_count(content: &str) -> (r: u64)
    ensures
        r == spec_byte_count(content@),
{
    let cv = chars_of(content);
    let tb = trim_bounds(&cv);
    let tok = crate::text::copy_range(&cv, tb.0, tb.1);
    proof {
        if is_u64_token(trimmed(content@)) {
            crate::text::lemma_digits_val_nonneg(crate::text::unsigned_digits(trimmed(content@)));
        }
    }
    match crate::text::parse_u64(&tok) {
        Some(v) => v,
        None => 0,
    }
}

/// The two displayed rates for one tick: the raw byte counters divided by
/// a thousand and rendered with a unit — a rough per-tick approximation
/// with no rate smoothing, by design. A missing counter file yields the
/// zero rate for both directions.
pub fn get_network_speeds(rx_content: Option<&str>, tx_content: Option<&str>) -> (r: (
    String,
    String,
))
    ensures
        (match (rx_content, tx_content) {
            (Option::Some(rx), Option::Some(tx)) => {
                &&& r.0@ == spec_format_rate(spec_byte_count(rx@) / 1000)
                &&& r.1@ == spec_format_rate(spec_byte_count(tx@) / 1000)
            },
            _ => r.0@ == "0 B/s"@ && r.1@ == "0 B/s"@,
        }),
{
    match (rx_content, tx_content) {
        (Some(rx), Some(tx)) => {
            let rxb = parse_byte_count(rx);
            let txb = parse_byte_count(tx);
            proof {
                if is_u64_token(trimmed(rx@)) {
                    crate::text::lemma_digits_val_nonneg(crate::text::unsigned_digits(trimmed(rx@)));
                }
                if is_u64_token(trimmed(tx@)) {
                    crate::text::lemma_digits_val_nonneg(crate::text::unsigned_digits(trimmed(tx@)));
                }
            }
            (format_bytes(rxb / 1000), format_bytes(txb / 1000))
        },
        _ => ("0 B/s".to_owned(), "0 B/s".to_owned()),
    }
}

/// Icon name for a network sample: offline when disconnected, a wireless
/// strength icon on WiFi, the wired icon on Ethernet, an error icon
/// otherwise.
pub open spec fn spec_network_icon(info: NetworkInfo) -> Seq<char> {
    if !info.is_connected {
        "network-offline-symbolic"@
    } else if info.connection_type@ == "WiFi"@ {
        if 76 <= info.signal_strength <= 100 {
            "network-wireless-signal-excellent-symbolic"@
        } else if 51 <= info.signal_strength <= 75 {
            "network-wireless-signal-good-symbolic"@
        } else if 26 <= info.signal_strength <= 50 {
            "network-wireless-signal-ok-symbolic"@
        } else if 1 <= info.signal_strength <= 25 {
            "network-wireless-signal-weak-symbolic"@
        } else {
            "network-wireless-signal-none-symbolic"@
        }
    } else if info.connection_type@ == "Ethernet"@ {
        "network-wired-symbolic"@
    } else {
        "network-error-symbolic"@
    }
}

/// Runtime choice matching [`spec_network_icon`].
pub fn get_network_icon(info: &NetworkInfo) -> (r: &'static str)
    ensures
        r@ == spec_network_icon(*info),
{
    if !info.is_connected {
        return "network-offline-symbolic";
    }
    let tv = chars_of(info.connection_type.as_str());
    let wifi = chars_of("WiFi");
    let eth = chars_of("Ethernet");
    if chars_eq(&tv, &wifi) {
        let s = info.signal_strength;
        if 76 <= s && s <= 100 {
            "network-wireless-signal-excellent-symbolic"
        } else if 51 <= s && s <= 75 {
            "network-wireless-signal-good-symbolic"
        } else if 26 <= s && s <= 50 {
            "network-wireless-signal-ok-symbolic"
        } else if 1 <= s && s <= 25 {
            "network-wireless-signal-weak-symbolic"
        } else {
            "network-wireless-signal-none-symbolic"
        }
    } else if chars_eq(&tv, &eth) {
        "network-wired-symbolic"
    } else {
        "network-error-symbolic"
    }
}

/// Display configuration of the network module: the label and tooltip
/// templates and whether the tooltip is shown.
#[derive(Debug, Clone)]
pub struct NetworkConfig {
    pub format: String,
    pub tooltip_format: String,
    pub tooltip: bool,
}

impl Default for NetworkConfig {
    /// The built-in templates: the label names the network, the tooltip
    /// its type, address and throughput.
    fn default() -> (r: Self)
        ensures
            r.format@ == "{name}"@,
            r.tooltip_format@ == "{type}: {name} {signal}\nIP: {ip}\nDown: {download} Up: {upload}"@,
            r.tooltip,
    {
        NetworkConfig {
            format: "{name}".to_owned(),
            tooltip_format: "{type}: {name} {signal}\nIP: {ip}\nDown: {download} Up: {upload}"
                .to_owned(),
            tooltip: true,
        }
    }
}

/// The template with each token substituted from the sample: `{device}`,
/// `{ip}`, `{name}`, `{signal}` (with a percent sign), `{type}`,
/// `{status}` (the connection word), `{download}`, `{upload}`,
/// `{frequency}`, and `{icon}` (by nothing). Substitution is literal and
/// unknown tokens stay untouched.
pub open spec fn spec_network_template(fmt: Seq<char>, info: NetworkInfo) -> Seq<char> {
    let t1 = replace_seq(fmt, "{device}"@, info.device@);
    let t2 = replace_seq(t1, "{ip}"@, info.ip_address@);
    let t3 = replace_seq(t2, "{name}"@, info.wifi_name@);
    let t4 = replace_seq(t3, "{signal}"@, dec_int(info.signal_strength as int) + "%"@);
    let t5 = replace_seq(t4, "{type}"@, info.connection_type@);
    let t6 = replace_seq(
        t5,
        "{status}"@,
        if info.is_connected {
            "Connected"@
        } else {
            "Disconnected"@
        },
    );
    let t7 = replace_seq(t6, "{download}"@, info.download_speed@);
    let t8 = replace_seq(t7, "{upload}"@, info.upload_speed@);
    let t9 = replace_seq(t8, "{frequency}"@, info.frequency@);
    replace_seq(t9, "{icon}"@, Seq::empty())
}

/// Fills the label template of `config` in for one sample.
pub fn format_network_text(info: &NetworkInfo, config: &NetworkConfig) -> (r: String)
    ensures
        r@ == spec_network_template(config.format@, *info),
{
    network_template(info, config.format.as_str())
}

/// Fills the tooltip template of `config` in for one sample.
pub fn format_network_tooltip(info: &NetworkInfo, config: &NetworkConfig) -> (r: String)
    ensures
        r@ == spec_network_template(config.tooltip_format@, *info),
{
    network_template(info, config.tooltip_format.as_str())
}

/// Performs the ten token substitutions on a template.
fn network_template(info: &NetworkInfo, fmt: &str) -> (r: String)
    ensures
        r@ == spec_network_template(fmt@, *info),
{
    proof {
        reveal_strlit("{device}");
        reveal_strlit("{ip}");
        reveal_strlit("{name}");
        reveal_strlit("{signal}");
        reveal_strlit("{type}");
        reveal_strlit("{status}");
        reveal_strlit("{download}");
        reveal_strlit("{upload}");
        reveal_strlit("{frequency}");
        reveal_strlit("{icon}");
        reveal_strlit("");
    }
    let mut signal = i64_to_string(info.signal_strength as i64);
    signal.append("%");
    let status: &str = if info.is_connected {
        "Connected"
    } else {
        "Disconnected"
    };
    let t1 = replace_str(fmt, "{device}", info.device.as_str());
    let t2 = replace_str(t1.as_str(), "{ip}", info.ip_address.as_str());
    let t3 = replace_str(t2.as_str(), "{name}", info.wifi_name.as_str());
    let t4 = replace_str(t3.as_str(), "{signal}", signal.as_str());
    let t5 = replace_str(t4.as_str(), "{type}", info.connection_type.as_str());
    let t6 = replace_str(t5.as_str(), "{status}", status);
    let t7 = replace_str(t6.as_str(), "{download}", info.download_speed.as_str());
    let t8 = replace_str(t7.as_str(), "{upload}", info.upload_speed.as_str());
    let t9 = replace_str(t8.as_str(), "{frequency}", info.frequency.as_str());
    let r = replace_str(t9.as_str(), "{icon}", "");
    proof {
        assert(""@ =~= Seq::<char>::empty());
    }
    r
}

/// Wireless strength icon for the compact status text.
pub open spec fn spec_wifi_icon(strength: u8) -> Seq<char> {
    if strength <= 25 {
        "\u{f091f}"@
    } else if strength <= 50 {
        "\u{f0922}"@
    } else if strength <= 75 {
        "\u{f0925}"@
    } else if strength <= 100 {
        "\u{f0928}"@
    } else {
        "\u{f05a9}"@
    }
}

/// Runtime choice matching [`spec_wifi_icon`].
pub fn get_wifi_icon(strength: u8) -> (r: &'static str)
    ensures
        r@ == spec_wifi_icon(strength),
{
    if strength <= 25 {
        "\u{f091f}"
    } else if strength <= 50 {
        "\u{f0922}"
    } else if strength <= 75 {
        "\u{f0925}"
    } else if strength <= 100 {
        "\u{f0928}"
    } else {
        "\u{f05a9}"
    }
}

/// One active connection as the system network service reports it: its
/// type word, its numeric state, and — for a wireless connection whose
/// access point is known — the network name and signal strength.
#[derive(Debug, Clone)]
pub struct NmConnection {
    pub conn_type: String,
    pub state: u32,
    pub ssid: Option<String>,
    pub strength: u8,
}

/// The status text one connection contributes: an activated wireless
/// connection with a known access point shows its icon and name, an
/// activated wired connection the wired marker, anything else nothing.
pub open spec fn nm_verdict(c: NmConnection) -> Option<Seq<char>> {
    if c.state == 2 && c.conn_type@ == "802-11-wireless"@ {
        match c.ssid {
            Some(ssid) => Some(spec_wifi_icon(c.strength) + " "@ + ssid@),
            None => None,
        }
    } else if c.state == 2 && c.conn_type@ == "802-3-ethernet"@ {
        Some("\u{f0201} Wired"@)
    } else {
        None
    }
}

/// The first connection verdict, from index `i` on.
pub open spec fn spec_nm_scan(cs: Seq<NmConnection>, i: int) -> Option<Seq<char>>
    decreases cs.len() - i,
    when i >= 0
{
    if i >= cs.len() {
        None
    } else {
        match nm_verdict(cs[i]) {
            Some(x) => Some(x),
            None => spec_nm_scan(cs, i + 1),
        }
    }
}

/// Whether any reported device is a wireless one that is not activated:
/// device type 2 in a state below 30.
pub open spec fn spec_wifi_present_disconnected(ds: Seq<(u32, u32)>) -> bool {
    exists|k: int| 0 <= k < ds.len() && ds[k].0 == 2 && ds[k].1 < 30
}

/// The status text for the whole service answer.
pub open spec fn spec_network_status(cs: Seq<NmConnection>, ds: Seq<(u32, u32)>) -> Seq<char> {
    match spec_nm_scan(cs, 0) {
        Some(t) => t,
        None => if spec_wifi_present_disconnected(ds) {
            "\u{f05aa} WiFi Disconnected"@
        } else {
            "\u{f05aa} Disconnected"@
        },
    }
}

/// Scans the active connections for a verdict, from index `k` on.
fn nm_scan_from(cs: &Vec<NmConnection>, k: usize) -> (r: Option<String>)
    requires
        k <= cs@.len(),
    ensures
        (r matches Some(x) ==> spec_nm_scan(cs@, k as int) == Some(x@)),
        r is None ==> spec_nm_scan(cs@, k as int) is None,
    decreases cs@.len() - k,
{
    if k >= cs.len() {
        None
    } else {
        let c = &cs[k];
        let tv = chars_of(c.conn_type.as_str());
        let wireless = chars_of("802-11-wireless");
        let wired = chars_of("802-3-ethernet");
        if c.state == 2 && chars_eq(&tv, &wireless) {
            match &c.ssid {
                Some(ssid) => {
                    let mut t = get_wifi_icon(c.strength).to_owned();
                    t.append(" ");
                    t.append(ssid.as_str());
                    proof {
                        assert(t@ =~= spec_wifi_icon(c.strength) + " "@ + ssid@);
                    }
                    Some(t)
                },
                None => nm_scan_from(cs, k + 1),
            }
        } else if c.state == 2 && chars_eq(&tv, &wired) {
            Some("\u{f0201} Wired".to_owned())
        } else {
            nm_scan_from(cs, k + 1)
        }
    }
}

/// Builds the compact status text out of the service's answer: the first
/// activated connection decides; with none, the text says whether an
/// unactivated wireless device is present at all.
pub fn get_network_info(connections: &Vec<NmConnection>, devices: &Vec<(u32, u32)>) -> (r: String)
    ensures
        r@ == spec_network_status(connections@, devices@),
{
    match nm_scan_from(connections, 0) {
        Some(t) => t,
        None => {
            let mut k: usize = 0;
            while k < devices.len()
                invariant
                    k <= devices@.len(),
                    spec_nm_scan(connections@, 0) is None,
                    forall|j: int| 0 <= j < k ==> !(devices@[j].0 == 2 && devices@[j].1 < 30),
                decreases devices@.len() - k,
            {
                let d = devices[k];
                if d.0 == 2 && d.1 < 30 {
                    proof {
                        assert(spec_wifi_present_disconnected(devices@));
                    }
                    return "\u{f05aa} WiFi Disconnected".to_owned();
                }
                k += 1;
            }
            "\u{f05aa} Disconnected".to_owned()
        },
    }
}

} // verus!
