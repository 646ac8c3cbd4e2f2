//! Memory utilization from `/proc/meminfo`-style key/value snapshots, with
//! an optional extra reservation (a filesystem cache accounted outside
//! "available") merged in.
//!
//! Unknown or malformed keys default to zero and are never fatal; the
//! percentage helpers are total functions that report zero when the total
//! is zero.

use vstd::prelude::*;

use crate::text::{
    chars_eq, chars_of, dec_digits, digit_str, digit_to_char, find_char, find_char_at,
    i64_token_val, is_i64_token, is_u64_token, lines_of, parse_i64, split_lines, split_tokens,
    tokens_of, u64_to_string, u64_token_val,
};
use vstd::string::StringExecFns;

verus! {

/// An `i64` value clamped to the representable range.
pub open spec fn sat_i64(x: int) -> int {
    if x > i64::MAX {
        i64::MAX as int
    } else if x < i64::MIN {
        i64::MIN as int
    } else {
        x
    }
}

/// Division with truncation toward zero, the `/` of the execution model.
pub open spec fn div_trunc(x: int, d: int) -> int {
    if x == 0 {
        0
    } else if x > 0 && d > 0 {
        x / d
    } else if x < 0 && d < 0 {
        (x * -1) / (d * -1)
    } else if x < 0 {
        ((x * -1) / d) * -1
    } else {
        (x / (d * -1)) * -1
    }
}

/// The percentage `part * 100 / total`, truncated toward zero, clamped to
/// the `i64` range — and defined as zero when `total` is zero, so the
/// helpers built on it can never divide by zero.
pub open spec fn pct_of(part: int, total: int) -> int {
    if total == 0 {
        0
    } else {
        sat_i64(div_trunc(part * 100, total))
    }
}

/// A zero total yields a zero percentage, for every part: the percentage
/// helpers are total and never produce an undefined value.
pub proof fn lemma_zero_total_percentage(part: int)
    ensures
        pct_of(part, 0) == 0,
{
}

/// The key/value entry a meminfo line denotes: the text before the first
/// `':'` is the key, the first whitespace-separated token after it the
/// value (an absent value counts as zero); a line without a `':'`, or with
/// a malformed value, denotes no entry.
pub open spec fn entry_of_line(line: Seq<char>) -> Option<(Seq<char>, i64)> {
    let c = find_char(line, ':', 0);
    if c >= line.len() {
        None
    } else {
        let key = line.subrange(0, c);
        let toks = tokens_of(line.subrange(c + 1, line.len() as int));
        if toks.len() == 0 {
            Some((key, 0))
        } else if is_i64_token(toks[0]) {
            Some((key, i64_token_val(toks[0]) as i64))
        } else {
            None
        }
    }
}

/// The value for `key` among the lines at index `i` and after, the last
/// matching entry winning.
pub open spec fn lookup_from(ls: Seq<Seq<char>>, key: Seq<char>, i: int) -> Option<i64>
    decreases ls.len() - i,
    when i >= 0
{
    if i >= ls.len() {
        None
    } else {
        let rest = lookup_from(ls, key, i + 1);
        if rest is Some {
            rest
        } else {
            match entry_of_line(ls[i]) {
                Some(kv) => if kv.0 == key {
                    Some(kv.1)
                } else {
                    None
                },
                None => None,
            }
        }
    }
}

/// The value recorded for `key` in a meminfo snapshot, if any.
pub open spec fn meminfo_value(s: Seq<char>, key: Seq<char>) -> Option<i64> {
    lookup_from(lines_of(s), key, 0)
}

/// The value recorded for `key`, defaulting to zero when absent.
pub open spec fn meminfo_value_or_zero(s: Seq<char>, key: Seq<char>) -> int {
    match meminfo_value(s, key) {
        Some(v) => v as int,
        None => 0,
    }
}

/// Parses one meminfo line into its key/value entry.
fn meminfo_entry(line: &Vec<char>) -> (r: Option<(Vec<char>, i64)>)
    ensures
        (r matches Some(kv) ==> entry_of_line(line@) == Some((kv.0@, kv.1))),
        r is None ==> entry_of_line(line@) is None,
{
    let c = find_char_at(line, ':', 0);
    proof {
        crate::text::lemma_find_char(line@, ':', 0);
    }
    if c >= line.len() {
        return None;
    }
    let key = crate::text::copy_range(line, 0, c);
    let rest = crate::text::copy_range(line, c + 1, line.len());
    let toks = split_tokens(&rest);
    if toks.len() == 0 {
        return Some((key, 0));
    }
    proof {
        assert(toks.deep_view()[0] == toks@[0].deep_view());
        crate::text::lemma_chars_deep_view(toks@[0]);
    }
    match parse_i64(&toks[0]) {
        Some(v) => Some((key, v)),
        None => None,
    }
}

/// Looks `key` up among the lines at index `i` and after.
fn meminfo_lookup_from(ls: &Vec<Vec<char>>, key: &Vec<char>, i: usize) -> (r: Option<i64>)
    requires
        i <= ls@.len(),
    ensures
        r == lookup_from(ls.deep_view(), key@, i as int),
    decreases ls@.len() - i,
{
    if i >= ls.len() {
        None
    } else {
        let rest = meminfo_lookup_from(ls, key, i + 1);
        match rest {
            Some(v) => Some(v),
            None => {
                proof {
                    assert(ls.deep_view()[i as int] == ls@[i as int].deep_view());
                    crate::text::lemma_chars_deep_view(ls@[i as int]);
                }
                match meminfo_entry(&ls[i]) {
                    Some(kv) => {
                        if chars_eq(&kv.0, key) {
                            Some(kv.1)
                        } else {
                            None
                        }
                    },
                    None => None,
                }
            },
        }
    }
}

/// Memory counters in kilobytes, as derived from one meminfo snapshot.
#[derive(Debug, Clone, Copy, PartialEq, Eq, Structural)]
pub struct MemoryStats {
    pub _total: i64,
    pub _available: i64,
    pub _used: i64,
    pub _zfs_size: i64,
}

impl MemoryStats {
    /// Used memory in kilobytes.
    pub fn used(&self) -> (r: i64)
        ensures
            r == self._used,
    {
        self._used
    }

    /// Used memory as a percentage of the total; zero when the total is
    /// zero.
    pub fn used_percentage(&self) -> (r: i64)
        ensures
            r == pct_of(self._used as int, self._total as int),
    {
        percentage_i64(self._used, self._total)
    }

    /// Available memory as a percentage of the total; zero when the total
    /// is zero.
    pub fn available_percentage(&self) -> (r: i64)
        ensures
            r == pct_of(self._available as int, self._total as int),
    {
        percentage_i64(self._available, self._total)
    }

    /// Renders a kilobyte count as gigabytes with one decimal place, as in
    /// `"7.8 GB"`: the magnitude in tenths of a gigabyte, rounded to the
    /// nearest tenth with ties away from zero.
    pub fn format_bytes(kb: i64) -> (s: String)
        ensures
            s@ == spec_format_gb(kb as int),
    {
        let mag: u128 = if kb < 0 {
            (-(kb as i128)) as u128
        } else {
            kb as u128
        };
        let t = (mag * 20 + 1048576) / 2097152;
        let whole = (t / 10) as u64;
        let frac = (t % 10) as u64;
        let mut s = String::new();
        if kb < 0 {
            s.append("-");
        }
        let w = u64_to_string(whole);
        s.append(w.as_str());
        s.append(".");
        s.append(digit_str(frac));
        s.append(" GB");
        proof {
            assert(s@ =~= spec_format_gb(kb as int));
        }
        s
    }
}

/// The gigabyte rendering produced by [`MemoryStats::format_bytes`].
pub open spec fn spec_format_gb(kb: int) -> Seq<char> {
    let mag = if kb < 0 {
        -kb
    } else {
        kb
    };
    let t = (mag * 20 + 1048576) / 2097152;
    let body = dec_digits(t / 10) + "."@ + seq![digit_to_char(t % 10)] + " GB"@;
    if kb < 0 {
        "-"@ + body
    } else {
        body
    }
}

/// The percentage computation shared by the helpers: truncated division,
/// clamped to the `i64` range, zero on a zero total.
fn percentage_i64(part: i64, total: i64) -> (r: i64)
    ensures
        r == pct_of(part as int, total as int),
{
    if total == 0 {
        return 0;
    }
    let num: i128 = part as i128 * 100;
    let den: i128 = total as i128;
    let q: i128 = match num.checked_div(den) {
        Some(q) => q,
        None => {
            proof {
                lemma_div_trunc_bound(num as int, den as int);
            }
            assert(false);
            0
        },
    };
    proof {
        lemma_div_trunc_bound(num as int, den as int);
    }
    if q > 9223372036854775807i128 {
        i64::MAX
    } else if q < -9223372036854775808i128 {
        i64::MIN
    } else {
        q as i64
    }
}

/// Truncated division never grows the magnitude: `|x / d| <= |x|` for a
/// nonzero divisor.
proof fn lemma_div_trunc_bound(x: int, d: int)
    requires
        d != 0,
    ensures
        -div_trunc(x, d) <= (if x < 0 {
            -x
        } else {
            x
        }),
        div_trunc(x, d) <= (if x < 0 {
            -x
        } else {
            x
        }),
{
    if x != 0 {
        let ax = if x < 0 {
            -x
        } else {
            x
        };
        let ad = if d < 0 {
            -d
        } else {
            d
        };
        assert(ax / ad <= ax) by (nonlinear_arith)
            requires
                ax > 0 && ad >= 1,
        ;
        assert(ax / ad >= 0) by (nonlinear_arith)
            requires
                ax > 0 && ad >= 1,
        ;
    }
}

/// Memory monitor; the snapshot arithmetic lives in
/// [`MemoryMonitor::get_memory_stats`].
pub struct MemoryMonitor;

impl MemoryMonitor {
    /// A fresh monitor.
    pub fn new() -> (r: Self) {
        MemoryMonitor
    }

    /// Derives the memory counters from a meminfo snapshot and the extra
    /// reservation (in kilobytes): `MemTotal` and `MemAvailable` default
    /// to zero when absent or malformed, and
    /// `used = total - available + extra` with saturating arithmetic.
    /// This never fails; missing keys are a recoverable condition.
    pub fn get_memory_stats(&mut self, meminfo: &str, zfs_size_kb: i64) -> (r: Result<
        MemoryStats,
        String,
    >)
        ensures
            r is Ok,
            (r matches Ok(st) ==> {
                let total = meminfo_value_or_zero(meminfo@, "MemTotal"@);
                let available = meminfo_value_or_zero(meminfo@, "MemAvailable"@);
                &&& st._total == total
                &&& st._available == available
                &&& st._zfs_size == zfs_size_kb
                &&& st._used == sat_i64(sat_i64(total - available) + zfs_size_kb)
            }),
    {
        let cs = chars_of(meminfo);
        let ls = split_lines(&cs);
        let key_total = chars_of("MemTotal");
        let key_avail = chars_of("MemAvailable");
        let total: i64 = match meminfo_lookup_from(&ls, &key_total, 0) {
            Some(v) => v,
            None => 0,
        };
        let available: i64 = match meminfo_lookup_from(&ls, &key_avail, 0) {
            Some(v) => v,
            None => 0,
        };
        let diff: i64 = sub_sat_i64(total, available);
        let used: i64 = add_sat_i64(diff, zfs_size_kb);
        Ok(
            MemoryStats {
                _total: total,
                _available: available,
                _used: used,
                _zfs_size: zfs_size_kb,
            },
        )
    }

    /// The all-zero counters reported when no snapshot could be read.
    pub fn handle_error(&self) -> (r: MemoryStats)
        ensures
            r._total == 0 && r._available == 0 && r._used == 0 && r._zfs_size == 0,
    {
        MemoryStats { _total: 0, _available: 0, _used: 0, _zfs_size: 0 }
    }
}

/// Saturating `i64` subtraction.
fn sub_sat_i64(a: i64, b: i64) -> (r: i64)
    ensures
        r == sat_i64(a - b),
{
    match a.checked_sub(b) {
        Some(v) => v,
        None => {
            if b < 0 {
                i64::MAX
            } else {
                i64::MIN
            }
        },
    }
}

/// Saturating `i64` addition.
fn add_sat_i64(a: i64, b: i64) -> (r: i64)
    ensures
        r == sat_i64(a + b),
{
    match a.checked_add(b) {
        Some(v) => v,
        None => {
            if b > 0 {
                i64::MAX
            } else {
                i64::MIN
            }
        },
    }
}

/// The extra-reservation size denoted by one arcstats line: the third
/// whitespace-separated token of a line whose first token is `size`, read
/// as a byte count and converted to kilobytes.
pub open spec fn arc_line_size(line: Seq<char>) -> Option<u64> {
    let t = tokens_of(line);
    if t.len() >= 3 && t[0] == "size"@ && is_u64_token(t[2]) {
        Some((u64_token_val(t[2]) / 1024) as u64)
    } else {
        None
    }
}

/// The size reported by the first line that denotes one, from index `i`
/// on; zero if none does.
pub open spec fn spec_arc_size_from(ls: Seq<Seq<char>>, i: int) -> u64
    decreases ls.len() - i,
    when i >= 0
{
    if i >= ls.len() {
        0
    } else {
        match arc_line_size(ls[i]) {
            Some(v) => v,
            None => spec_arc_size_from(ls, i + 1),
        }
    }
}

/// The extra-reservation size a whole arcstats snapshot reports, in
/// kilobytes.
pub open spec fn spec_arc_size(s: Seq<char>) -> u64 {
    spec_arc_size_from(lines_of(s), 0)
}

/// Reads the reservation size out of an arcstats-style snapshot: the first
/// `size` row wins; a missing or malformed row yields zero, never an error.
pub fn parse_arc_size(content: &str) -> (r: u64)
    ensures
        r == spec_arc_size(content@),
{
    let cs = chars_of(content);
    let ls = split_lines(&cs);
    let key = chars_of("size");
    parse_arc_size_from(&ls, &key, 0)
}

/// Scans arcstats lines from index `i` for the first `size` row.
fn parse_arc_size_from(ls: &Vec<Vec<char>>, key: &Vec<char>, i: usize) -> (r: u64)
    requires
        i <= ls@.len(),
        key@ == "size"@,
    ensures
        r == spec_arc_size_from(ls.deep_view(), i as int),
    decreases ls@.len() - i,
{
    if i >= ls.len() {
        0
    } else {
        proof {
            assert(ls.deep_view()[i as int] == ls@[i as int].deep_view());
            crate::text::lemma_chars_deep_view(ls@[i as int]);
        }
        let toks = split_tokens(&ls[i]);
        if toks.len() >= 3 {
            proof {
                assert(toks.deep_view()[0] == toks@[0].deep_view());
                assert(toks.deep_view()[2] == toks@[2].deep_view());
                crate::text::lemma_chars_deep_view(toks@[0]);
                crate::text::lemma_chars_deep_view(toks@[2]);
            }
            if chars_eq(&toks[0], key) {
                match crate::text::parse_u64(&toks[2]) {
                    Some(v) => {
                        proof {
                            crate::text::lemma_digits_val_nonneg(
                                crate::text::unsigned_digits(toks@[2]@),
                            );
                        }
                        return v / 1024;
                    },
                    None => {
                        return parse_arc_size_from(ls, key, i + 1);
                    },
                }
            }
        }
        parse_arc_size_from(ls, key, i + 1)
    }
}

/// The ways the memory widget can render its label.
#[derive(Debug, Clone, Copy)]
pub enum MemoryDisplayMode {
    _UsedOnly,
    _UsedWithTotal,
    _UsedPercentage,
    _Available,
    _AvailablePercentage,
    _Detailed,
}

/// A percentage as the display casts it: negative values show as zero.
pub open spec fn pct_display(p: int) -> int {
    if p < 0 {
        0
    } else if p > u32::MAX {
        u32::MAX as int
    } else {
        p
    }
}

/// The label text for one mode: gigabyte renderings of the counters, or
/// the usage percentages, under the fixed captions.
pub open spec fn spec_memory_display(st: MemoryStats, mode: MemoryDisplayMode) -> Seq<char> {
    match mode {
        MemoryDisplayMode::_UsedOnly => "RAM: "@ + spec_format_gb(st._used as int),
        MemoryDisplayMode::_UsedWithTotal => "RAM: "@ + spec_format_gb(st._used as int) + " / "@
            + spec_format_gb(st._total as int),
        MemoryDisplayMode::_UsedPercentage => "RAM: "@ + dec_digits(
            pct_display(pct_of(st._used as int, st._total as int)),
        ) + "%"@,
        MemoryDisplayMode::_Available => "RAM: "@ + spec_format_gb(st._available as int)
            + " available"@,
        MemoryDisplayMode::_AvailablePercentage => "RAM: "@ + dec_digits(
            pct_display(pct_of(st._available as int, st._total as int)),
        ) + "% available"@,
        MemoryDisplayMode::_Detailed => "Used: "@ + spec_format_gb(st._used as int)
            + ", Available: "@ + spec_format_gb(st._available as int),
    }
}

/// Renders the memory label for one display mode.
pub fn format_memory_display(stats: &MemoryStats, mode: MemoryDisplayMode) -> (r: String)
    ensures
        r@ == spec_memory_display(*stats, mode),
{
    match mode {
        MemoryDisplayMode::_UsedOnly => {
            let mut s = "RAM: ".to_owned();
            let g = MemoryStats::format_bytes(stats._used);
            s.append(g.as_str());
            s
        },
        MemoryDisplayMode::_UsedWithTotal => {
            let mut s = "RAM: ".to_owned();
            let g = MemoryStats::format_bytes(stats._used);
            s.append(g.as_str());
            s.append(" / ");
            let t = MemoryStats::format_bytes(stats._total);
            s.append(t.as_str());
            proof {
                assert(s@ =~= spec_memory_display(*stats, mode));
            }
            s
        },
        MemoryDisplayMode::_UsedPercentage => {
            let p = stats.used_percentage();
            let shown: u64 = if p < 0 {
                0
            } else if p > u32::MAX as i64 {
                u32::MAX as u64
            } else {
                p as u64
            };
            let mut s = "RAM: ".to_owned();
            let d = u64_to_string(shown);
            s.append(d.as_str());
            s.append("%");
            proof {
                assert(s@ =~= spec_memory_display(*stats, mode));
            }
            s
        },
        MemoryDisplayMode::_Available => {
            let mut s = "RAM: ".to_owned();
            let g = MemoryStats::format_bytes(stats._available);
            s.append(g.as_str());
            s.append(" available");
            proof {
                assert(s@ =~= spec_memory_display(*stats, mode));
            }
            s
        },
        MemoryDisplayMode::_AvailablePercentage => {
            let p = stats.available_percentage();
            let shown: u64 = if p < 0 {
                0
            } else if p > u32::MAX as i64 {
                u32::MAX as u64
            } else {
                p as u64
            };
            let mut s = "RAM: ".to_owned();
            let d = u64_to_string(shown);
            s.append(d.as_str());
            s.append("% available");
            proof {
                assert(s@ =~= spec_memory_display(*stats, mode));
            }
            s
        },
        MemoryDisplayMode::_Detailed => {
            let mut s = "Used: ".to_owned();
            let g = MemoryStats::format_bytes(stats._used);
            s.append(g.as_str());
            s.append(", Available: ");
            let a = MemoryStats::format_bytes(stats._available);
            s.append(a.as_str());
            proof {
                assert(s@ =~= spec_memory_display(*stats, mode));
            }
            s
        },
    }
}

/// CSS severity class for a memory usage percentage: below 50 is `low`,
/// below 80 is `medium`, anything else `high`.
pub open spec fn spec_memory_css_class(pct: int) -> Seq<char> {
    if pct < 50 {
        "low"@
    } else if pct < 80 {
        "medium"@
    } else {
        "high"@
    }
}

/// Runtime choice matching [`spec_memory_css_class`].
pub fn memory_css_class(pct: i64) -> (r: &'static str)
    ensures
        r@ == spec_memory_css_class(pct as int),
{
    if pct < 50 {
        "low"
    } else if pct < 80 {
        "medium"
    } else {
        "high"
    }
}

} // verus!
