//! Clock label formatting: a wall-clock hour and minute rendered as the
//! twelve-hour `HH:MM` text the bar displays.

use vstd::prelude::*;

use crate::text::{two_digit_string, two_digits};
use vstd::string::StringExecFns;

verus! {

/// The twelve-hour label for a 24-hour reading: hours map to `1..=12`
/// (midnight and noon both show as 12), both fields zero-padded to two
/// digits.
pub open spec fn spec_clock_label(hour: int, minute: int) -> Seq<char> {
    let h12 = (hour + 11) % 12 + 1;
    two_digits(h12) + ":"@ + two_digits(minute)
}

/// Renders the clock label for one wall-clock reading.
pub fn format_clock(hour: u8, minute: u8) -> (r: String)
    requires
        hour < 24,
        minute < 60,
    ensures
        r@ == spec_clock_label(hour as int, minute as int),
{
    let h12: u64 = ((hour as u64 + 11) % 12) + 1;
    let mut s = two_digit_string(h12);
    s.append(":");
    let m = two_digit_string(minute as u64);
    s.append(m.as_str());
    proof {
        assert(s@ =~= spec_clock_label(hour as int, minute as int));
    }
    s
}

} // verus!
