//! Battery display logic: the state model for a power-management service,
//! icon selection, and the token-substitution templates for the label and
//! tooltip.
//!
//! The service itself is queried outside the library; everything here works
//! on the plain percentage, state and time values handed in.

use vstd::prelude::*;

use crate::text::{
    contains_chars, contains_seq, dec_digits, dec_int, i64_to_string, replace_seq, replace_str,
    two_digit_string, two_digits,
};
use vstd::string::StringExecFns;

verus! {

/// Charging state of a battery, with `Unknown` as the catch-all for every
/// state the service reports that the display does not distinguish.
#[derive(Debug, Clone, Copy, PartialEq, Eq, Structural)]
pub enum BatteryState {
    Charging,
    Discharging,
    Empty,
    Full,
    Unknown,
}

/// The display word for a charging state.
pub open spec fn spec_state_str(state: BatteryState) -> Seq<char> {
    match state {
        BatteryState::Charging => "Charging"@,
        BatteryState::Discharging => "Discharging"@,
        BatteryState::Empty => "Empty"@,
        BatteryState::Full => "Full"@,
        BatteryState::Unknown => "Unknown"@,
    }
}

/// Converts a charging state to its display word.
pub fn state_to_str(state: BatteryState) -> (r: &'static str)
    ensures
        r@ == spec_state_str(state),
{
    match state {
        BatteryState::Charging => "Charging",
        BatteryState::Discharging => "Discharging",
        BatteryState::Empty => "Empty",
        BatteryState::Full => "Full",
        BatteryState::Unknown => "Unknown",
    }
}

/// Maps a numeric state code of the power-management service onto the
/// state set, exhaustively: every unrecognized code becomes `Unknown`
/// rather than an error.
pub fn battery_state_from_code(code: u32) -> (r: BatteryState)
    ensures
        r == spec_state_from_code(code),
{
    if code == 1 {
        BatteryState::Charging
    } else if code == 2 {
        BatteryState::Discharging
    } else if code == 3 {
        BatteryState::Empty
    } else if code == 4 {
        BatteryState::Full
    } else {
        BatteryState::Unknown
    }
}

/// The state each service code denotes.
pub open spec fn spec_state_from_code(code: u32) -> BatteryState {
    if code == 1 {
        BatteryState::Charging
    } else if code == 2 {
        BatteryState::Discharging
    } else if code == 3 {
        BatteryState::Empty
    } else if code == 4 {
        BatteryState::Full
    } else {
        BatteryState::Unknown
    }
}

/// Converts an optional time quantity, already read out in whole seconds,
/// to an optional duration in seconds. Time quantities are modeled as
/// whole seconds throughout this crate.
pub fn quantity_to_duration(q: Option<u64>) -> (r: Option<u64>)
    ensures
        r == q,
{
    q
}

/// The remaining time a battery sample carries: the time-to-full while
/// charging, the time-to-empty while discharging, nothing in any other
/// state.
pub open spec fn spec_seconds_remaining(
    state: BatteryState,
    time_to_full: Option<u64>,
    time_to_empty: Option<u64>,
) -> Option<u64> {
    match state {
        BatteryState::Charging => time_to_full,
        BatteryState::Discharging => time_to_empty,
        _ => None,
    }
}

/// Picks the remaining time for a battery sample.
pub fn battery_seconds_remaining(
    state: BatteryState,
    time_to_full: Option<u64>,
    time_to_empty: Option<u64>,
) -> (r: Option<u64>)
    ensures
        r == spec_seconds_remaining(state, time_to_full, time_to_empty),
{
    match state {
        BatteryState::Charging => time_to_full,
        BatteryState::Discharging => time_to_empty,
        _ => None,
    }
}

/// Icon name for a battery percentage and charging flag. Percentages
/// outside `[0, 100]` denote a missing reading.
pub open spec fn spec_battery_icon(percentage: int, charging: bool) -> Seq<char> {
    if 90 <= percentage <= 100 {
        if charging {
            "battery-full-charging-symbolic"@
        } else {
            "battery-full-symbolic"@
        }
    } else if 60 <= percentage <= 89 {
        if charging {
            "battery-good-charging-symbolic"@
        } else {
            "battery-good-symbolic"@
        }
    } else if 30 <= percentage <= 59 {
        if charging {
            "battery-medium-charging-symbolic"@
        } else {
            "battery-medium-symbolic"@
        }
    } else if 10 <= percentage <= 29 {
        if charging {
            "battery-low-charging-symbolic"@
        } else {
            "battery-low-symbolic"@
        }
    } else if 0 <= percentage <= 9 {
        if charging {
            "battery-caution-charging-symbolic"@
        } else {
            "battery-caution-symbolic"@
        }
    } else {
        "battery-missing-symbolic"@
    }
}

/// Runtime choice matching [`spec_battery_icon`].
pub fn get_battery_icon(percentage: i32, charging: bool) -> (r: &'static str)
    ensures
        r@ == spec_battery_icon(percentage as int, charging),
{
    if 90 <= percentage && percentage <= 100 {
        if charging {
            "battery-full-charging-symbolic"
        } else {
            "battery-full-symbolic"
        }
    } else if 60 <= percentage && percentage <= 89 {
        if charging {
            "battery-good-charging-symbolic"
        } else {
            "battery-good-symbolic"
        }
    } else if 30 <= percentage && percentage <= 59 {
        if charging {
            "battery-medium-charging-symbolic"
        } else {
            "battery-medium-symbolic"
        }
    } else if 10 <= percentage && percentage <= 29 {
        if charging {
            "battery-low-charging-symbolic"
        } else {
            "battery-low-symbolic"
        }
    } else if 0 <= percentage && percentage <= 9 {
        if charging {
            "battery-caution-charging-symbolic"
        } else {
            "battery-caution-symbolic"
        }
    } else {
        "battery-missing-symbolic"
    }
}

/// The `{time}` label: a time-to-full while charging (ignored at or above
/// a hundred percent), a time-to-empty while discharging, plain words
/// otherwise. Durations render as `HH:MM` once a full hour is reached and
/// as minutes otherwise.
pub open spec fn spec_time_label(
    percentage: int,
    state: BatteryState,
    time_to_full: Option<u64>,
    time_to_empty: Option<u64>,
) -> Seq<char> {
    match state {
        BatteryState::Charging => {
            if percentage >= 100 {
                "Full"@
            } else {
                match time_to_full {
                    Some(secs) => spec_duration_label("Full in "@, secs as int),
                    None => "Full in Unknown"@,
                }
            }
        },
        BatteryState::Discharging => {
            match time_to_empty {
                Some(secs) => spec_duration_label("Empty in "@, secs as int),
                None => "Empty in Unknown"@,
            }
        },
        BatteryState::Full => "Full"@,
        _ => "Unknown"@,
    }
}

/// A duration under the given prefix: `HH:MM` (both zero-padded to two
/// digits) when at least one hour remains, else the whole minutes with a
/// trailing `m`.
pub open spec fn spec_duration_label(prefix: Seq<char>, total_secs: int) -> Seq<char> {
    let hours = total_secs / 3600;
    let minutes = (total_secs % 3600) / 60;
    if hours > 0 {
        prefix + two_digits(hours) + ":"@ + two_digits(minutes)
    } else {
        prefix + dec_digits(minutes) + "m"@
    }
}

/// Builds the `{time}` label for a battery reading.
pub fn format_time_label(
    percentage: i32,
    state: BatteryState,
    time_to_full: Option<u64>,
    time_to_empty: Option<u64>,
) -> (r: String)
    ensures
        r@ == spec_time_label(percentage as int, state, time_to_full, time_to_empty),
{
    match state {
        BatteryState::Charging => {
            if percentage >= 100 {
                return "Full".to_owned();
            }
            match time_to_full {
                Some(secs) => duration_label("Full in ", secs),
                None => "Full in Unknown".to_owned(),
            }
        },
        BatteryState::Discharging => {
            match time_to_empty {
                Some(secs) => duration_label("Empty in ", secs),
                None => "Empty in Unknown".to_owned(),
            }
        },
        BatteryState::Full => "Full".to_owned(),
        _ => "Unknown".to_owned(),
    }
}

/// Renders a duration under a prefix, as [`spec_duration_label`] states.
fn duration_label(prefix: &str, total_secs: u64) -> (r: String)
    ensures
        r@ == spec_duration_label(prefix@, total_secs as int),
{
    let hours = total_secs / 3600;
    let minutes = (total_secs % 3600) / 60;
    let mut s = prefix.to_owned();
    if hours > 0 {
        let h = two_digit_string(hours);
        let m = two_digit_string(minutes);
        s.append(h.as_str());
        s.append(":");
        s.append(m.as_str());
    } else {
        let m = crate::text::u64_to_string(minutes);
        s.append(m.as_str());
        s.append("m");
    }
    proof {
        assert(s@ =~= spec_duration_label(prefix@, total_secs as int));
    }
    s
}

/// Display configuration of the battery module: the label and tooltip
/// templates and whether the tooltip is shown.
#[derive(Debug, Clone)]
pub struct BatteryConfig {
    pub format: String,
    pub tooltip_format: String,
    pub tooltip: bool,
}

impl Default for BatteryConfig {
    /// The built-in templates: the label shows the percentage, the
    /// tooltip the state and remaining time.
    fn default() -> (r: Self)
        ensures
            r.format@ == "{percentage}"@,
            r.tooltip_format@ == "{state}, {time}"@,
            r.tooltip,
    {
        BatteryConfig {
            format: "{percentage}".to_owned(),
            tooltip_format: "{state}, {time}".to_owned(),
            tooltip: true,
        }
    }
}

/// The template `fmt` with each token substituted: `{percentage}` by the
/// percentage and a percent sign, `{state}` by the state word, `{time}` by
/// the time label, `{icon}` by nothing. Substitution is literal; unknown
/// tokens stay untouched.
pub open spec fn spec_battery_template(
    fmt: Seq<char>,
    percentage: int,
    state: BatteryState,
    time_to_full: Option<u64>,
    time_to_empty: Option<u64>,
) -> Seq<char> {
    let t1 = replace_seq(fmt, "{percentage}"@, dec_int(percentage) + "%"@);
    let t2 = replace_seq(t1, "{state}"@, spec_state_str(state));
    let t3 = replace_seq(
        t2,
        "{time}"@,
        spec_time_label(percentage, state, time_to_full, time_to_empty),
    );
    replace_seq(t3, "{icon}"@, Seq::empty())
}

/// Fills the label template of `config` in for one battery reading.
pub fn format_battery_text(
    percentage: i32,
    state: BatteryState,
    time_to_full: Option<u64>,
    time_to_empty: Option<u64>,
    config: &BatteryConfig,
) -> (r: String)
    ensures
        r@ == spec_battery_template(
            config.format@,
            percentage as int,
            state,
            time_to_full,
            time_to_empty,
        ),
{
    battery_template(config.format.as_str(), percentage, state, time_to_full, time_to_empty)
}

/// Fills the tooltip template of `config` in for one battery reading.
pub fn format_battery_tooltip(
    percentage: i32,
    state: BatteryState,
    time_to_full: Option<u64>,
    time_to_empty: Option<u64>,
    config: &BatteryConfig,
) -> (r: String)
    ensures
        r@ == spec_battery_template(
            config.tooltip_format@,
            percentage as int,
            state,
            time_to_full,
            time_to_empty,
        ),
{
    battery_template(
        config.tooltip_format.as_str(),
        percentage,
        state,
        time_to_full,
        time_to_empty,
    )
}

/// Performs the four token substitutions on a template.
fn battery_template(
    fmt: &str,
    percentage: i32,
    state: BatteryState,
    time_to_full: Option<u64>,
    time_to_empty: Option<u64>,
) -> (r: String)
    ensures
        r@ == spec_battery_template(fmt@, percentage as int, state, time_to_full, time_to_empty),
{
    proof {
        reveal_strlit("{percentage}");
        reveal_strlit("{state}");
        reveal_strlit("{time}");
        reveal_strlit("{icon}");
        reveal_strlit("");
    }
    let mut pct = i64_to_string(percentage as i64);
    pct.append("%");
    let time = format_time_label(percentage, state, time_to_full, time_to_empty);
    let t1 = replace_str(fmt, "{percentage}", pct.as_str());
    let t2 = replace_str(t1.as_str(), "{state}", state_to_str(state));
    let t3 = replace_str(t2.as_str(), "{time}", time.as_str());
    let r = replace_str(t3.as_str(), "{icon}", "");
    proof {
        assert(""@ =~= Seq::<char>::empty());
    }
    r
}

/// Icon name for the compact battery display: below 15 is empty, below 30
/// low, below 80 medium, anything else full.
pub open spec fn spec_battery_level_icon(percentage: int) -> Seq<char> {
    if percentage < 15 {
        "battery-empty"@
    } else if percentage < 30 {
        "battery-low"@
    } else if percentage < 80 {
        "battery-medium"@
    } else {
        "battery-full"@
    }
}

/// Runtime choice matching [`spec_battery_level_icon`].
pub fn battery_level_icon(percentage: i32) -> (r: &'static str)
    ensures
        r@ == spec_battery_level_icon(percentage as int),
{
    if percentage < 15 {
        "battery-empty"
    } else if percentage < 30 {
        "battery-low"
    } else if percentage < 80 {
        "battery-medium"
    } else {
        "battery-full"
    }
}

/// CSS severity class for the compact battery display: below 15 percent is
/// critical, below 30 a warning, nothing otherwise.
pub open spec fn spec_battery_css_class(percentage: int) -> Option<Seq<char>> {
    if percentage < 15 {
        Some("critical"@)
    } else if percentage < 30 {
        Some("warning"@)
    } else {
        None
    }
}

/// Runtime choice matching [`spec_battery_css_class`].
pub fn battery_css_class(percentage: i32) -> (r: Option<&'static str>)
    ensures
        (r matches Some(c) ==> spec_battery_css_class(percentage as int) == Some(c@)),
        r is None <==> spec_battery_css_class(percentage as int) is None,
{
    if percentage < 15 {
        Some("critical")
    } else if percentage < 30 {
        Some("warning")
    } else {
        None
    }
}

/// Index of the first device path that names a battery, if any: the
/// device-enumeration answer is searched for a path containing `battery`.
pub fn find_battery_path(paths: &Vec<String>) -> (r: Option<usize>)
    ensures
        (r matches Some(i) ==> {
            &&& i < paths@.len()
            &&& contains_seq(paths@[i as int]@, "battery"@)
            &&& forall|j: int| 0 <= j < i ==> !contains_seq(#[trigger] paths@[j]@, "battery"@)
        }),
        r is None ==> forall|j: int|
            0 <= j < paths@.len() ==> !contains_seq(#[trigger] paths@[j]@, "battery"@),
{
    let pat = crate::text::chars_of("battery");
    let mut i: usize = 0;
    while i < paths.len()
        invariant
            i <= paths@.len(),
            pat@ == "battery"@,
            forall|j: int| 0 <= j < i ==> !contains_seq(#[trigger] paths@[j]@, "battery"@),
        decreases paths@.len() - i,
    {
        let cs = crate::text::chars_of(paths[i].as_str());
        if contains_chars(&cs, &pat) {
            return Some(i);
        }
        i += 1;
    }
    None
}

/// While charging at a hundred percent, the time-to-full is ignored: the
/// time label is the word `Full`, whatever time the service reported.
pub proof fn lemma_full_charge_label(
    percentage: int,
    time_to_full: Option<u64>,
    time_to_empty: Option<u64>,
)
    requires
        percentage >= 100,
    ensures
        spec_time_label(percentage, BatteryState::Charging, time_to_full, time_to_empty)
            == "Full"@,
{
}

} // verus!
