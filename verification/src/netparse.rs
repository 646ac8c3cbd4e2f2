//! Parsers for the network-introspection tool outputs: default-route and
//! interface discovery, addresses, wireless name, signal and frequency, and
//! byte counters. Every query is best-effort and independently failable, so
//! each parser is total: malformed output yields a neutral fallback, never
//! an error.

use vstd::prelude::*;

use crate::text::{
    chars_eq, chars_of, contains_chars, contains_seq, copy_range, find_char, find_char_at,
    find_chars_at, find_seq, find_token, find_token_at, is_i64_token, is_u64_token, i64_token_val,
    line_ranges, lines_of, parse_i64, parse_u64, range_denotes, ranges_of_lines, ranges_of_tokens,
    token_ranges, tokens_of, trim_bounds, trim_char_range, trim_char_bounds, trimmed,
    strip_suffix_all, strip_suffix_all_at, u64_token_val,
};
use vstd::string::StrSliceExecFns;

verus! {

/// The interface a route-table line names: on a line containing `default`,
/// the token after the first `dev` token.
pub open spec fn route_line_iface(line: Seq<char>) -> Option<Seq<char>> {
    if contains_seq(line, "default"@) {
        let toks = tokens_of(line);
        let di = find_token(toks, "dev"@, 0);
        if di + 1 < toks.len() {
            Some(toks[di + 1])
        } else {
            None
        }
    } else {
        None
    }
}

/// The interface named by the first line that names one, from line `i` on.
pub open spec fn spec_route_iface_from(ls: Seq<Seq<char>>, i: int) -> Option<Seq<char>>
    decreases ls.len() - i,
    when i >= 0
{
    if i >= ls.len() {
        None
    } else {
        match route_line_iface(ls[i]) {
            Some(x) => Some(x),
            None => spec_route_iface_from(ls, i + 1),
        }
    }
}

/// The default-route interface a route listing names, if any.
pub open spec fn spec_route_iface(s: Seq<char>) -> Option<Seq<char>> {
    spec_route_iface_from(lines_of(s), 0)
}

/// Extracts the interface of one route-table line.
fn route_line_iface_exec(line: &str) -> (r: Option<String>)
    ensures
        (r matches Some(x) ==> route_line_iface(line@) == Some(x@)),
        r is None ==> route_line_iface(line@) is None,
{
    let lv = chars_of(line);
    let pat = chars_of("default");
    if !contains_chars(&lv, &pat) {
        return None;
    }
    let trs = token_ranges(&lv);
    let dev = chars_of("dev");
    let di = find_token_at(&lv, &trs, &dev, 0);
    if di < trs.len() && di + 1 < trs.len() {
        let rg = trs[di + 1];
        proof {
            assert(range_denotes(lv@, trs@[di + 1], tokens_of(line@)[di + 1]));
        }
        Some(line.substring_char(rg.0, rg.1).to_owned())
    } else {
        None
    }
}

/// Reads the default-route interface out of a route listing, scanning the
/// lines from index `k` on.
fn parse_route_from(s: &str, lrs: &Vec<(usize, usize)>, k: usize) -> (r: Option<String>)
    requires
        ranges_of_lines(s@, lrs@),
        k <= lrs@.len(),
    ensures
        (r matches Some(x) ==> spec_route_iface_from(lines_of(s@), k as int) == Some(x@)),
        r is None ==> spec_route_iface_from(lines_of(s@), k as int) is None,
    decreases lrs@.len() - k,
{
    if k >= lrs.len() {
        None
    } else {
        let rg = lrs[k];
        let line = s.substring_char(rg.0, rg.1);
        match route_line_iface_exec(line) {
            Some(x) => Some(x),
            None => parse_route_from(s, lrs, k + 1),
        }
    }
}

/// The interface carrying the default route, as a route listing shows it.
pub fn parse_default_route(output: &str) -> (r: Option<String>)
    ensures
        (r matches Some(x) ==> spec_route_iface(output@) == Some(x@)),
        r is None ==> spec_route_iface(output@) is None,
{
    let cv = chars_of(output);
    let lrs = line_ranges(&cv);
    parse_route_from(output, &lrs, 0)
}

/// The interface a device-statistics line names: the text before the first
/// `':'`, trimmed; it counts when it is neither empty nor the loopback.
pub open spec fn dev_line_iface(line: Seq<char>) -> Option<Seq<char>> {
    let c = find_char(line, ':', 0);
    if c >= line.len() {
        None
    } else {
        let ifc = trimmed(line.subrange(0, c));
        if ifc.len() > 0 && ifc != "lo"@ {
            Some(ifc)
        } else {
            None
        }
    }
}

/// The first interface with statistics, from line `i` on.
pub open spec fn spec_first_iface_from(ls: Seq<Seq<char>>, i: int) -> Option<Seq<char>>
    decreases ls.len() - i,
    when i >= 0
{
    if i >= ls.len() {
        None
    } else {
        match dev_line_iface(ls[i]) {
            Some(x) => Some(x),
            None => spec_first_iface_from(ls, i + 1),
        }
    }
}

/// The first non-loopback interface a device-statistics listing shows,
/// skipping its two header lines.
pub open spec fn spec_first_iface(s: Seq<char>) -> Option<Seq<char>> {
    spec_first_iface_from(lines_of(s), 2)
}

/// Extracts the interface of one device-statistics line.
fn dev_line_iface_exec(line: &str) -> (r: Option<String>)
    ensures
        (r matches Some(x) ==> dev_line_iface(line@) == Some(x@)),
        r is None ==> dev_line_iface(line@) is None,
{
    let lv = chars_of(line);
    let c = find_char_at(&lv, ':', 0);
    proof {
        crate::text::lemma_find_char(lv@, ':', 0);
    }
    if c >= lv.len() {
        return None;
    }
    let keypart = copy_range(&lv, 0, c);
    let tb = trim_bounds(&keypart);
    if tb.0 >= tb.1 {
        proof {
            assert(trimmed(line@.subrange(0, c as int)).len() == 0);
        }
        return None;
    }
    let lo = chars_of("lo");
    let ifc = copy_range(&keypart, tb.0, tb.1);
    if chars_eq(&ifc, &lo) {
        return None;
    }
    proof {
        assert(line@.subrange(tb.0 as int, tb.1 as int) =~= keypart@.subrange(
            tb.0 as int,
            tb.1 as int,
        ));
    }
    Some(line.substring_char(tb.0, tb.1).to_owned())
}

/// Scans a device-statistics listing for the first interface, from line
/// index `k` on.
fn parse_first_iface_from(s: &str, lrs: &Vec<(usize, usize)>, k: usize) -> (r: Option<String>)
    requires
        ranges_of_lines(s@, lrs@),
        k <= lrs@.len(),
    ensures
        (r matches Some(x) ==> spec_first_iface_from(lines_of(s@), k as int) == Some(x@)),
        r is None ==> spec_first_iface_from(lines_of(s@), k as int) is None,
    decreases lrs@.len() - k,
{
    if k >= lrs.len() {
        None
    } else {
        let rg = lrs[k];
        let line = s.substring_char(rg.0, rg.1);
        match dev_line_iface_exec(line) {
            Some(x) => Some(x),
            None => parse_first_iface_from(s, lrs, k + 1),
        }
    }
}

/// The first active non-loopback interface of a device-statistics listing.
pub fn parse_first_interface(output: &str) -> (r: Option<String>)
    ensures
        (r matches Some(x) ==> spec_first_iface(output@) == Some(x@)),
        r is None ==> spec_first_iface(output@) is None,
{
    let cv = chars_of(output);
    let lrs = line_ranges(&cv);
    if lrs.len() < 2 {
        proof {
            assert(spec_first_iface_from(lines_of(output@), 2) is None);
        }
        return None;
    }
    parse_first_iface_from(output, &lrs, 2)
}

/// Active interface discovery: the default-route interface if the route
/// listing names one, else the first non-loopback interface with
/// statistics.
pub open spec fn spec_active_iface(route: Seq<char>, devs: Seq<char>) -> Option<Seq<char>> {
    match spec_route_iface(route) {
        Some(x) => Some(x),
        None => spec_first_iface(devs),
    }
}

/// Picks the active interface from the route listing, falling back to the
/// first interface with statistics.
pub fn get_active_interface(route_output: &str, dev_output: &str) -> (r: Option<String>)
    ensures
        (r matches Some(x) ==> spec_active_iface(route_output@, dev_output@) == Some(x@)),
        r is None ==> spec_active_iface(route_output@, dev_output@) is None,
{
    match parse_default_route(route_output) {
        Some(x) => Some(x),
        None => parse_first_interface(dev_output),
    }
}

/// The address an address-listing line shows: on a line containing
/// `inet ` but not `inet6`, the first token containing a dot, cut before
/// its first `/`.
pub open spec fn ip_line_addr(line: Seq<char>) -> Option<Seq<char>> {
    if contains_seq(line, "inet "@) && !contains_seq(line, "inet6"@) {
        let toks = tokens_of(line);
        let ti = find_dot_token(toks, 0);
        if ti < toks.len() {
            let tok = toks[ti];
            Some(tok.subrange(0, find_char(tok, '/', 0)))
        } else {
            None
        }
    } else {
        None
    }
}

/// Index of the first token at or after `i` containing a dot.
pub open spec fn find_dot_token(toks: Seq<Seq<char>>, i: int) -> int
    decreases toks.len() - i,
    when i >= 0
{
    if i >= toks.len() {
        toks.len() as int
    } else if find_char(toks[i], '.', 0) < toks[i].len() {
        i
    } else {
        find_dot_token(toks, i + 1)
    }
}

/// The address of the first line that shows one, from line `i` on.
pub open spec fn spec_ip_from(ls: Seq<Seq<char>>, i: int) -> Option<Seq<char>>
    decreases ls.len() - i,
    when i >= 0
{
    if i >= ls.len() {
        None
    } else {
        match ip_line_addr(ls[i]) {
            Some(x) => Some(x),
            None => spec_ip_from(ls, i + 1),
        }
    }
}

/// The address an address listing yields: the first one shown, or the
/// all-zero address when none is.
pub open spec fn spec_ip_address(s: Seq<char>) -> Seq<char> {
    match spec_ip_from(lines_of(s), 0) {
        Some(x) => x,
        None => "0.0.0.0"@,
    }
}

/// Searches the tokens marked by `trs` for the first containing a dot.
fn find_dot_token_at(s: &Vec<char>, trs: &Vec<(usize, usize)>, k: usize) -> (r: usize)
    requires
        ranges_of_tokens(s@, trs@),
        k <= trs@.len(),
    ensures
        r == find_dot_token(tokens_of(s@), k as int),
        r <= trs@.len(),
    decreases trs@.len() - k,
{
    if k >= trs.len() {
        trs.len()
    } else {
        let rg = trs[k];
        let tok = copy_range(s, rg.0, rg.1);
        let d = find_char_at(&tok, '.', 0);
        proof {
            crate::text::lemma_find_char(tok@, '.', 0);
        }
        if d < tok.len() {
            k
        } else {
            find_dot_token_at(s, trs, k + 1)
        }
    }
}

/// Extracts the address of one address-listing line.
fn ip_line_addr_exec(line: &str) -> (r: Option<String>)
    ensures
        (r matches Some(x) ==> ip_line_addr(line@) == Some(x@)),
        r is None ==> ip_line_addr(line@) is None,
{
    let lv = chars_of(line);
    let inet = chars_of("inet ");
    let inet6 = chars_of("inet6");
    if !contains_chars(&lv, &inet) {
        return None;
    }
    if contains_chars(&lv, &inet6) {
        return None;
    }
    let trs = token_ranges(&lv);
    let ti = find_dot_token_at(&lv, &trs, 0);
    if ti >= trs.len() {
        return None;
    }
    let rg = trs[ti];
    let tok = copy_range(&lv, rg.0, rg.1);
    let d = find_char_at(&tok, '/', 0);
    proof {
        crate::text::lemma_find_char(tok@, '/', 0);
        assert(range_denotes(lv@, trs@[ti as int], tokens_of(line@)[ti as int]));
        assert(line@.subrange(rg.0 as int, rg.0 + d) =~= tok@.subrange(0, d as int));
    }
    Some(line.substring_char(rg.0, rg.0 + d).to_owned())
}

/// Scans an address listing for the first address, from line index `k` on.
fn parse_ip_from(s: &str, lrs: &Vec<(usize, usize)>, k: usize) -> (r: Option<String>)
    requires
        ranges_of_lines(s@, lrs@),
        k <= lrs@.len(),
    ensures
        (r matches Some(x) ==> spec_ip_from(lines_of(s@), k as int) == Some(x@)),
        r is None ==> spec_ip_from(lines_of(s@), k as int) is None,
    decreases lrs@.len() - k,
{
    if k >= lrs.len() {
        None
    } else {
        let rg = lrs[k];
        let line = s.substring_char(rg.0, rg.1);
        match ip_line_addr_exec(line) {
            Some(x) => Some(x),
            None => parse_ip_from(s, lrs, k + 1),
        }
    }
}

/// Reads the interface address out of an address listing; a listing that
/// shows none yields the all-zero address, never an error.
pub fn parse_ip_output(output: &str) -> (r: String)
    ensures
        r@ == spec_ip_address(output@),
{
    let cv = chars_of(output);
    let lrs = line_ranges(&cv);
    match parse_ip_from(output, &lrs, 0) {
        Some(x) => x,
        None => "0.0.0.0".to_owned(),
    }
}

/// The text between the first occurrence of `pat` in `line` and the next,
/// or the line end — the segment `split(pat).nth(1)` yields — or nothing
/// when `pat` does not occur.
pub open spec fn after_first(line: Seq<char>, pat: Seq<char>) -> Option<Seq<char>> {
    let p = find_seq(line, pat, 0);
    if p + pat.len() <= line.len() {
        let a = p + pat.len();
        let p2 = find_seq(line, pat, a);
        let b = if p2 + pat.len() <= line.len() {
            p2
        } else {
            line.len() as int
        };
        Some(line.subrange(a, b))
    } else {
        None
    }
}

/// The bounds of [`after_first`] in `lv`, or `None`.
fn after_first_at(lv: &Vec<char>, pat: &Vec<char>) -> (r: Option<(usize, usize)>)
    requires
        pat@.len() > 0,
    ensures
        (r matches Some(rg) ==> {
            &&& rg.0 <= rg.1 <= lv@.len()
            &&& after_first(lv@, pat@) == Some(lv@.subrange(rg.0 as int, rg.1 as int))
        }),
        r is None ==> after_first(lv@, pat@) is None,
{
    let p = find_chars_at(lv, pat, 0);
    proof {
        crate::text::lemma_find_seq(lv@, pat@, 0);
    }
    if p <= lv.len() && lv.len() - p >= pat.len() {
        let a = p + pat.len();
        let p2 = find_chars_at(lv, pat, a);
        proof {
            crate::text::lemma_find_seq(lv@, pat@, a as int);
        }
        let b = if p2 <= lv.len() && lv.len() - p2 >= pat.len() {
            p2
        } else {
            lv.len()
        };
        Some((a, b))
    } else {
        None
    }
}

/// The wireless name an iwconfig line shows: the segment after `ESSID:`,
/// whitespace-trimmed and stripped of surrounding quotes; it counts when
/// it is neither empty nor the no-network marker `off/any`.
pub open spec fn essid_of_line(line: Seq<char>) -> Option<Seq<char>> {
    match after_first(line, "ESSID:"@) {
        Some(seg) => {
            let t = trimmed(seg);
            let e = trim_char_range(t, '"', 0, t.len() as int);
            if e.len() > 0 && e != "off/any"@ {
                Some(e)
            } else {
                None
            }
        },
        None => None,
    }
}

/// The name of the first line that shows one, from line `i` on.
pub open spec fn spec_essid_from(ls: Seq<Seq<char>>, i: int) -> Option<Seq<char>>
    decreases ls.len() - i,
    when i >= 0
{
    if i >= ls.len() {
        None
    } else {
        match essid_of_line(ls[i]) {
            Some(x) => Some(x),
            None => spec_essid_from(ls, i + 1),
        }
    }
}

/// The wireless name an iwconfig listing shows, if any.
pub open spec fn spec_iwconfig_essid(s: Seq<char>) -> Option<Seq<char>> {
    spec_essid_from(lines_of(s), 0)
}

/// Extracts the wireless name of one iwconfig line.
fn essid_of_line_exec(line: &str) -> (r: Option<String>)
    ensures
        (r matches Some(x) ==> essid_of_line(line@) == Some(x@)),
        r is None ==> essid_of_line(line@) is None,
{
    let lv = chars_of(line);
    let pat = chars_of("ESSID:");
    proof {
        reveal_strlit("ESSID:");
    }
    let rg = match after_first_at(&lv, &pat) {
        Some(rg) => rg,
        None => {
            return None;
        },
    };
    let seg = copy_range(&lv, rg.0, rg.1);
    let tb = trim_bounds(&seg);
    let qb = trim_char_bounds(&seg, '"', tb.0, tb.1);
    proof {
        let t = trimmed(seg@);
        assert(trim_char_range(t, '"', 0, t.len() as int) == trim_char_range(
            seg@,
            '"',
            tb.0 as int,
            tb.1 as int,
        )) by {
            assert(t == seg@.subrange(tb.0 as int, tb.1 as int));
            crate::text::lemma_trim_char_shift(seg@, '"', tb.0 as int, tb.1 as int);
        }
    }
    if qb.0 >= qb.1 {
        proof {
            assert(seg@.subrange(qb.0 as int, qb.1 as int).len() == 0);
        }
        return None;
    }
    let e = copy_range(&seg, qb.0, qb.1);
    let off = chars_of("off/any");
    if chars_eq(&e, &off) {
        return None;
    }
    proof {
        assert(line@.subrange(rg.0 + qb.0, rg.0 + qb.1) =~= seg@.subrange(
            qb.0 as int,
            qb.1 as int,
        ));
    }
    Some(line.substring_char(rg.0 + qb.0, rg.0 + qb.1).to_owned())
}

/// Scans an iwconfig listing for the wireless name, from line `k` on.
fn parse_essid_from(s: &str, lrs: &Vec<(usize, usize)>, k: usize) -> (r: Option<String>)
    requires
        ranges_of_lines(s@, lrs@),
        k <= lrs@.len(),
    ensures
        (r matches Some(x) ==> spec_essid_from(lines_of(s@), k as int) == Some(x@)),
        r is None ==> spec_essid_from(lines_of(s@), k as int) is None,
    decreases lrs@.len() - k,
{
    if k >= lrs.len() {
        None
    } else {
        let rg = lrs[k];
        let line = s.substring_char(rg.0, rg.1);
        match essid_of_line_exec(line) {
            Some(x) => Some(x),
            None => parse_essid_from(s, lrs, k + 1),
        }
    }
}

/// The wireless network name an iwconfig listing shows, if any.
pub fn parse_iwconfig_essid(output: &str) -> (r: Option<String>)
    ensures
        (r matches Some(x) ==> spec_iwconfig_essid(output@) == Some(x@)),
        r is None ==> spec_iwconfig_essid(output@) is None,
{
    let cv = chars_of(output);
    let lrs = line_ranges(&cv);
    parse_essid_from(output, &lrs, 0)
}

/// The network name a terse nmcli line shows: the rest of a line starting
/// `yes:`, when that rest is non-empty.
pub open spec fn nmcli_line_ssid(line: Seq<char>) -> Option<Seq<char>> {
    if crate::text::starts_with(line, "yes:"@) && line.len() > 4 {
        Some(line.subrange(4, line.len() as int))
    } else {
        None
    }
}

/// The name of the first active-network nmcli line, from line `i` on.
pub open spec fn spec_nmcli_from(ls: Seq<Seq<char>>, i: int) -> Option<Seq<char>>
    decreases ls.len() - i,
    when i >= 0
{
    if i >= ls.len() {
        None
    } else {
        match nmcli_line_ssid(ls[i]) {
            Some(x) => Some(x),
            None => spec_nmcli_from(ls, i + 1),
        }
    }
}

/// The active network name a terse nmcli listing shows, if any.
pub open spec fn spec_nmcli_ssid(s: Seq<char>) -> Option<Seq<char>> {
    spec_nmcli_from(lines_of(s), 0)
}

/// Scans a terse nmcli listing for the active network name, from line `k`
/// on.
fn parse_nmcli_from(s: &str, lrs: &Vec<(usize, usize)>, yes: &Vec<char>, k: usize) -> (r: Option<
    String,
>)
    requires
        ranges_of_lines(s@, lrs@),
        yes@ == "yes:"@,
        k <= lrs@.len(),
    ensures
        (r matches Some(x) ==> spec_nmcli_from(lines_of(s@), k as int) == Some(x@)),
        r is None ==> spec_nmcli_from(lines_of(s@), k as int) is None,
    decreases lrs@.len() - k,
{
    if k >= lrs.len() {
        None
    } else {
        let rg = lrs[k];
        let line = s.substring_char(rg.0, rg.1);
        let lv = chars_of(line);
        proof {
            reveal_strlit("yes:");
        }
        if crate::text::starts_with_chars(&lv, yes) && lv.len() > 4 {
            proof {
                assert(line@.subrange(4, line@.len() as int) == lines_of(s@)[k as int].subrange(
                    4,
                    lines_of(s@)[k as int].len() as int,
                ));
            }
            Some(line.substring_char(4, lv.len()).to_owned())
        } else {
            parse_nmcli_from(s, lrs, yes, k + 1)
        }
    }
}

/// The active wireless name a terse nmcli listing shows, if any.
pub fn parse_nmcli_ssid(output: &str) -> (r: Option<String>)
    ensures
        (r matches Some(x) ==> spec_nmcli_ssid(output@) == Some(x@)),
        r is None ==> spec_nmcli_ssid(output@) is None,
{
    let cv = chars_of(output);
    let lrs = line_ranges(&cv);
    let yes = chars_of("yes:");
    parse_nmcli_from(output, &lrs, &yes, 0)
}

/// The wireless name, preferring the iwconfig listing and falling back to
/// the nmcli one; a placeholder when neither names a network.
pub open spec fn spec_wifi_name(iw: Seq<char>, nm: Seq<char>) -> Seq<char> {
    match spec_iwconfig_essid(iw) {
        Some(x) => x,
        None => match spec_nmcli_ssid(nm) {
            Some(x) => x,
            None => "Unknown Network"@,
        },
    }
}

/// Reads the wireless network name out of the two listings.
pub fn get_wifi_name(iwconfig_output: &str, nmcli_output: &str) -> (r: String)
    ensures
        r@ == spec_wifi_name(iwconfig_output@, nmcli_output@),
{
    match parse_iwconfig_essid(iwconfig_output) {
        Some(x) => x,
        None => match parse_nmcli_ssid(nmcli_output) {
            Some(x) => x,
            None => "Unknown Network".to_owned(),
        },
    }
}

/// A raw signal value clamped to the percentage range `[0, 100]`.
pub open spec fn clamp_pct(x: int) -> int {
    if x < 0 {
        0
    } else if x > 100 {
        100
    } else {
        x
    }
}

/// The signal percentage an iwconfig line shows: the first token of the
/// segment after `Signal level=`, with trailing `dBm` markers stripped,
/// read as a dBm level and mapped to `(level + 100) * 2`, clamped to
/// `[0, 100]`.
pub open spec fn dbm_of_line(line: Seq<char>) -> Option<i32> {
    match after_first(line, "Signal level="@) {
        Some(seg) => {
            let toks = tokens_of(seg);
            if toks.len() > 0 {
                let t = strip_suffix_all(toks[0], "dBm"@);
                if is_i64_token(t) && i32::MIN <= i64_token_val(t) <= i32::MAX {
                    Some(dbm_to_pct(i64_token_val(t)) as i32)
                } else {
                    None
                }
            } else {
                None
            }
        },
        None => None,
    }
}

/// dBm level to percentage: `(level + 100) * 2` clamped to `[0, 100]`.
pub open spec fn dbm_to_pct(dbm: int) -> int {
    clamp_pct((dbm + 100) * 2)
}

/// The signal percentage of the first line that shows one, from line `i`
/// on.
pub open spec fn spec_dbm_from(ls: Seq<Seq<char>>, i: int) -> Option<i32>
    decreases ls.len() - i,
    when i >= 0
{
    if i >= ls.len() {
        None
    } else {
        match dbm_of_line(ls[i]) {
            Some(x) => Some(x),
            None => spec_dbm_from(ls, i + 1),
        }
    }
}

/// The signal percentage an iwconfig listing shows, if any.
pub open spec fn spec_iwconfig_signal(s: Seq<char>) -> Option<i32> {
    spec_dbm_from(lines_of(s), 0)
}

/// Extracts the signal percentage of one iwconfig line.
fn dbm_of_line_exec(line: &str) -> (r: Option<i32>)
    ensures
        r == dbm_of_line(line@),
{
    let lv = chars_of(line);
    let pat = chars_of("Signal level=");
    proof {
        reveal_strlit("Signal level=");
    }
    let rg = match after_first_at(&lv, &pat) {
        Some(rg) => rg,
        None => {
            return None;
        },
    };
    let seg = copy_range(&lv, rg.0, rg.1);
    let trs = token_ranges(&seg);
    if trs.len() == 0 {
        return None;
    }
    let t0 = trs[0];
    proof {
        assert(range_denotes(seg@, trs@[0], tokens_of(seg@)[0]));
    }
    let dbm_pat = chars_of("dBm");
    proof {
        reveal_strlit("dBm");
    }
    let e = strip_suffix_all_at(&seg, &dbm_pat, t0.0, t0.1);
    let tok = copy_range(&seg, t0.0, e);
    proof {
        assert(strip_suffix_all(tokens_of(seg@)[0], "dBm"@) == tok@);
    }
    match parse_i64(&tok) {
        Some(v) => {
            if i32::MIN as i64 <= v && v <= i32::MAX as i64 {
                let raw: i64 = (v + 100) * 2;
                if raw < 0 {
                    Some(0)
                } else if raw > 100 {
                    Some(100)
                } else {
                    Some(raw as i32)
                }
            } else {
                None
            }
        },
        None => None,
    }
}

/// Scans an iwconfig listing for the signal percentage, from line `k` on.
fn parse_dbm_from(s: &str, lrs: &Vec<(usize, usize)>, k: usize) -> (r: Option<i32>)
    requires
        ranges_of_lines(s@, lrs@),
        k <= lrs@.len(),
    ensures
        r == spec_dbm_from(lines_of(s@), k as int),
    decreases lrs@.len() - k,
{
    if k >= lrs.len() {
        None
    } else {
        let rg = lrs[k];
        let line = s.substring_char(rg.0, rg.1);
        match dbm_of_line_exec(line) {
            Some(x) => Some(x),
            None => parse_dbm_from(s, lrs, k + 1),
        }
    }
}

/// The signal percentage an iwconfig listing shows, if any.
pub fn parse_iwconfig_signal(output: &str) -> (r: Option<i32>)
    ensures
        r == spec_iwconfig_signal(output@),
{
    let cv = chars_of(output);
    let lrs = line_ranges(&cv);
    parse_dbm_from(output, &lrs, 0)
}

/// The signal percentage a kernel wireless-statistics line shows for
/// `iface`: on a line containing the interface name, the third token with
/// trailing dots stripped, read as a link quality out of 70, scaled to a
/// percentage and clamped to `[0, 100]` — this source too only ever
/// returns a percentage.
pub open spec fn wireless_line_signal(line: Seq<char>, iface: Seq<char>) -> Option<i32> {
    if contains_seq(line, iface) {
        let toks = tokens_of(line);
        if toks.len() >= 3 {
            let t = strip_suffix_all(toks[2], "."@);
            if is_i64_token(t) && i32::MIN <= i64_token_val(t) <= i32::MAX {
                Some(clamp_pct(crate::memory::div_trunc(i64_token_val(t) * 100, 70)) as i32)
            } else {
                None
            }
        } else {
            None
        }
    } else {
        None
    }
}

/// The signal percentage of the first matching line, from line `i` on.
pub open spec fn spec_wireless_from(ls: Seq<Seq<char>>, iface: Seq<char>, i: int) -> Option<i32>
    decreases ls.len() - i,
    when i >= 0
{
    if i >= ls.len() {
        None
    } else {
        match wireless_line_signal(ls[i], iface) {
            Some(x) => Some(x),
            None => spec_wireless_from(ls, iface, i + 1),
        }
    }
}

/// The signal percentage the kernel wireless statistics show for `iface`,
/// skipping the two header lines.
pub open spec fn spec_wireless_signal(s: Seq<char>, iface: Seq<char>) -> Option<i32> {
    spec_wireless_from(lines_of(s), iface, 2)
}

/// Extracts the signal percentage of one wireless-statistics line.
fn wireless_line_exec(line: &str, iface: &Vec<char>) -> (r: Option<i32>)
    ensures
        r == wireless_line_signal(line@, iface@),
{
    let lv = chars_of(line);
    if !contains_chars(&lv, iface) {
        return None;
    }
    let trs = token_ranges(&lv);
    if trs.len() < 3 {
        return None;
    }
    let t2 = trs[2];
    proof {
        assert(range_denotes(lv@, trs@[2], tokens_of(line@)[2]));
    }
    let dot = chars_of(".");
    proof {
        reveal_strlit(".");
    }
    let e = strip_suffix_all_at(&lv, &dot, t2.0, t2.1);
    let tok = copy_range(&lv, t2.0, e);
    proof {
        assert(strip_suffix_all(tokens_of(line@)[2], "."@) == tok@);
    }
    match parse_i64(&tok) {
        Some(v) => {
            if i32::MIN as i64 <= v && v <= i32::MAX as i64 {
                let num: i64 = v * 100;
                let q: i64 = match num.checked_div(70) {
                    Some(q) => q,
                    None => {
                        proof {
                            assert(false);
                        }
                        0
                    },
                };
                if q < 0 {
                    Some(0)
                } else if q > 100 {
                    Some(100)
                } else {
                    Some(q as i32)
                }
            } else {
                None
            }
        },
        None => None,
    }
}

/// Every signal the iwconfig scan yields is a percentage.
pub proof fn lemma_dbm_from_range(ls: Seq<Seq<char>>, i: int)
    requires
        i >= 0,
    ensures
        (spec_dbm_from(ls, i) matches Some(v) ==> 0 <= v <= 100),
    decreases ls.len() - i,
{
    if i < ls.len() {
        lemma_dbm_from_range(ls, i + 1);
    }
}

/// Every signal the wireless-statistics scan yields is a percentage.
pub proof fn lemma_wireless_from_range(ls: Seq<Seq<char>>, iface: Seq<char>, i: int)
    requires
        i >= 0,
    ensures
        (spec_wireless_from(ls, iface, i) matches Some(v) ==> 0 <= v <= 100),
    decreases ls.len() - i,
{
    if i < ls.len() {
        lemma_wireless_from_range(ls, iface, i + 1);
    }
}

/// Scans the wireless statistics for `iface`, from line `k` on.
fn parse_wireless_from(s: &str, lrs: &Vec<(usize, usize)>, iface: &Vec<char>, k: usize) -> (r:
    Option<i32>)
    requires
        ranges_of_lines(s@, lrs@),
        k <= lrs@.len(),
    ensures
        r == spec_wireless_from(lines_of(s@), iface@, k as int),
    decreases lrs@.len() - k,
{
    if k >= lrs.len() {
        None
    } else {
        let rg = lrs[k];
        let line = s.substring_char(rg.0, rg.1);
        match wireless_line_exec(line, iface) {
            Some(x) => Some(x),
            None => parse_wireless_from(s, lrs, iface, k + 1),
        }
    }
}

/// The wireless signal strength for `iface`: the iwconfig reading when the
/// listing shows one, else the kernel wireless-statistics reading, else
/// zero — absence of any reading is not an error.
pub open spec fn spec_wifi_signal(iw: Seq<char>, wireless: Seq<char>, iface: Seq<char>) -> int {
    match spec_iwconfig_signal(iw) {
        Some(x) => x as int,
        None => match spec_wireless_signal(wireless, iface) {
            Some(x) => x as int,
            None => 0,
        },
    }
}

/// Reads the signal strength out of the two sources; whatever either of
/// them showed, the result is a percentage in `[0, 100]`.
pub fn get_wifi_signal_strength(iwconfig_output: &str, wireless_output: &str, interface: &str) -> (r:
    i32)
    ensures
        r == spec_wifi_signal(iwconfig_output@, wireless_output@, interface@),
        0 <= r <= 100,
{
    proof {
        lemma_dbm_from_range(lines_of(iwconfig_output@), 0);
        lemma_wireless_from_range(lines_of(wireless_output@), interface@, 2);
    }
    match parse_iwconfig_signal(iwconfig_output) {
        Some(x) => x,
        None => {
            let cv = chars_of(wireless_output);
            let lrs = line_ranges(&cv);
            let ifv = chars_of(interface);
            if lrs.len() < 2 {
                proof {
                    assert(spec_wireless_from(lines_of(wireless_output@), interface@, 2) is None);
                }
                return 0;
            }
            match parse_wireless_from(wireless_output, &lrs, &ifv, 2) {
                Some(x) => x,
                None => 0,
            }
        },
    }
}

/// The frequency an iwconfig line shows: the first token of the segment
/// after `Frequency:`, or a dash when the segment is blank.
pub open spec fn freq_of_line(line: Seq<char>) -> Option<Seq<char>> {
    match after_first(line, "Frequency:"@) {
        Some(seg) => {
            let toks = tokens_of(seg);
            if toks.len() > 0 {
                Some(toks[0])
            } else {
                Some("-"@)
            }
        },
        None => None,
    }
}

/// The frequency of the first line that shows one, from line `i` on.
pub open spec fn spec_freq_from(ls: Seq<Seq<char>>, i: int) -> Option<Seq<char>>
    decreases ls.len() - i,
    when i >= 0
{
    if i >= ls.len() {
        None
    } else {
        match freq_of_line(ls[i]) {
            Some(x) => Some(x),
            None => spec_freq_from(ls, i + 1),
        }
    }
}

/// The frequency an iwconfig listing shows, or a not-available marker.
pub open spec fn spec_wifi_frequency(s: Seq<char>) -> Seq<char> {
    match spec_freq_from(lines_of(s), 0) {
        Some(x) => x,
        None => "N/A"@,
    }
}

/// Extracts the frequency of one iwconfig line.
fn freq_of_line_exec(line: &str) -> (r: Option<String>)
    ensures
        (r matches Some(x) ==> freq_of_line(line@) == Some(x@)),
        r is None ==> freq_of_line(line@) is None,
{
    let lv = chars_of(line);
    let pat = chars_of("Frequency:");
    proof {
        reveal_strlit("Frequency:");
    }
    let rg = match after_first_at(&lv, &pat) {
        Some(rg) => rg,
        None => {
            return None;
        },
    };
    let seg = copy_range(&lv, rg.0, rg.1);
    let trs = token_ranges(&seg);
    if trs.len() == 0 {
        return Some("-".to_owned());
    }
    let t0 = trs[0];
    proof {
        assert(range_denotes(seg@, trs@[0], tokens_of(seg@)[0]));
        assert(line@.subrange(rg.0 + t0.0, rg.0 + t0.1) =~= seg@.subrange(
            t0.0 as int,
            t0.1 as int,
        ));
    }
    Some(line.substring_char(rg.0 + t0.0, rg.0 + t0.1).to_owned())
}

/// Scans an iwconfig listing for the frequency, from line `k` on.
fn parse_freq_from(s: &str, lrs: &Vec<(usize, usize)>, k: usize) -> (r: Option<String>)
    requires
        ranges_of_lines(s@, lrs@),
        k <= lrs@.len(),
    ensures
        (r matches Some(x) ==> spec_freq_from(lines_of(s@), k as int) == Some(x@)),
        r is None ==> spec_freq_from(lines_of(s@), k as int) is None,
    decreases lrs@.len() - k,
{
    if k >= lrs.len() {
        None
    } else {
        let rg = lrs[k];
        let line = s.substring_char(rg.0, rg.1);
        match freq_of_line_exec(line) {
            Some(x) => Some(x),
            None => parse_freq_from(s, lrs, k + 1),
        }
    }
}

/// Reads the wireless frequency out of an iwconfig listing.
pub fn get_wifi_frequency(output: &str) -> (r: String)
    ensures
        r@ == spec_wifi_frequency(output@),
{
    let cv = chars_of(output);
    let lrs = line_ranges(&cv);
    match parse_freq_from(output, &lrs, 0) {
        Some(x) => x,
        None => "N/A".to_owned(),
    }
}

} // verus!
