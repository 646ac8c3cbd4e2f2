//! CPU utilization from `/proc/stat`-style counter snapshots.
//!
//! The monitor parses the aggregate CPU line, keeps the previous counters,
//! and reports utilization as an integer percentage in `[0, 100]` computed
//! from saturating counter deltas.

use vstd::prelude::*;

use crate::text::{
    chars_of, copy_range, find_char, find_char_at, is_u64_token, parse_u64, split_tokens,
    tokens_of, u64_token_val,
};

verus! {

/// Saturating subtraction over mathematical integers.
pub open spec fn sat_sub(a: int, b: int) -> int {
    if a >= b {
        a - b
    } else {
        0
    }
}

/// Aggregate CPU time counters, in clock ticks, as read from the first line
/// of a `/proc/stat`-style snapshot.
#[derive(Debug, Clone, PartialEq, Eq, Structural)]
pub struct CpuStats {
    pub user: u64,
    pub nice: u64,
    pub system: u64,
    pub idle: u64,
    pub iowait: u64,
    pub irq: u64,
    pub softirq: u64,
    pub steal: u64,
}

impl CpuStats {
    /// Exact mathematical sum of the eight counters.
    pub open spec fn sum(&self) -> int {
        self.user + self.nice + self.system + self.idle + self.iowait + self.irq + self.softirq
            + self.steal
    }

    /// The total counter: the sum, saturating at `u64::MAX`.
    pub open spec fn spec_total(&self) -> int {
        if self.sum() <= u64::MAX {
            self.sum()
        } else {
            u64::MAX as int
        }
    }

    /// Ticks spent doing work: the total minus idle and iowait time,
    /// saturating at zero.
    pub open spec fn spec_active(&self) -> int {
        sat_sub(sat_sub(self.spec_total(), self.idle as int), self.iowait as int)
    }

    /// Sum of all eight counters, saturating at `u64::MAX`.
    pub fn total(&self) -> (r: u64)
        ensures
            r == self.spec_total(),
    {
        self.user.saturating_add(self.nice).saturating_add(self.system).saturating_add(
            self.idle,
        ).saturating_add(self.iowait).saturating_add(self.irq).saturating_add(
            self.softirq,
        ).saturating_add(self.steal)
    }

    /// Ticks spent doing work, saturating at zero.
    pub fn active(&self) -> (r: u64)
        ensures
            r == self.spec_active(),
    {
        self.total().saturating_sub(self.idle).saturating_sub(self.iowait)
    }
}

/// The first line of `s`: the characters before the first `'\n'` (minus a
/// `'\r'` directly before it), or all of `s` if it has no `'\n'`.
pub open spec fn first_line(s: Seq<char>) -> Seq<char> {
    let j = find_char(s, '\n', 0);
    if j < s.len() {
        if j > 0 && s[j - 1] == '\r' {
            s.subrange(0, j - 1)
        } else {
            s.subrange(0, j)
        }
    } else {
        s
    }
}

/// The counter fields of a `/proc/stat` snapshot: of the whitespace-separated
/// tokens of its first line, the ones after the leading `cpu` label, up to
/// eight of them.
pub open spec fn cpu_fields(s: Seq<char>) -> Seq<Seq<char>> {
    let toks = tokens_of(first_line(s));
    if toks.len() <= 1 {
        Seq::empty()
    } else if toks.len() > 9 {
        toks.subrange(1, 9)
    } else {
        toks.subrange(1, toks.len() as int)
    }
}

/// Every field is a well-formed decimal `u64`.
pub open spec fn cpu_fields_parse(fs: Seq<Seq<char>>) -> bool {
    forall|i: int| 0 <= i < fs.len() ==> is_u64_token(#[trigger] fs[i])
}

/// A snapshot parses when it is non-empty, all its counter fields are
/// well-formed numbers, and at least four fields are present.
pub open spec fn cpu_parse_ok(s: Seq<char>) -> bool {
    s.len() > 0 && cpu_fields_parse(cpu_fields(s)) && cpu_fields(s).len() >= 4
}

/// The error message reported for a snapshot that does not parse.
pub open spec fn cpu_parse_error_msg(s: Seq<char>) -> Seq<char> {
    if s.len() == 0 {
        "Empty /proc/stat file"@
    } else if !cpu_fields_parse(cpu_fields(s)) {
        "Failed to parse CPU values"@
    } else {
        "Not enough CPU stats in /proc/stat"@
    }
}

/// The value of field `i`, with missing trailing fields defaulting to zero.
pub open spec fn cpu_field_or_zero(fs: Seq<Seq<char>>, i: int) -> u64 {
    if i < fs.len() {
        u64_token_val(fs[i]) as u64
    } else {
        0
    }
}

/// The counters denoted by the parsed fields, in `/proc/stat` order.
pub open spec fn spec_cpu_stats(fs: Seq<Seq<char>>) -> CpuStats {
    CpuStats {
        user: cpu_field_or_zero(fs, 0),
        nice: cpu_field_or_zero(fs, 1),
        system: cpu_field_or_zero(fs, 2),
        idle: cpu_field_or_zero(fs, 3),
        iowait: cpu_field_or_zero(fs, 4),
        irq: cpu_field_or_zero(fs, 5),
        softirq: cpu_field_or_zero(fs, 6),
        steal: cpu_field_or_zero(fs, 7),
    }
}

/// Utilization percentage derived from the previous and current counters:
/// zero on the very first sample and whenever no time has passed (or the
/// counters regressed), otherwise `active_delta * 100 / total_delta` with
/// both deltas saturating at zero, clamped to 100.
pub open spec fn spec_usage(prev: Option<CpuStats>, cur: CpuStats) -> int {
    match prev {
        Option::None => 0,
        Option::Some(p) => {
            let total_delta = sat_sub(cur.spec_total(), p.spec_total());
            let active_delta = sat_sub(cur.spec_active(), p.spec_active());
            if total_delta > 0 {
                let pct = active_delta * 100 / total_delta;
                if pct <= 100 {
                    pct
                } else {
                    100
                }
            } else {
                0
            }
        },
    }
}

/// CPU monitor state: the previous counter snapshot and the count of
/// consecutive sampling errors.
pub struct CpuMonitor {
    previous_stats: Option<CpuStats>,
    error_count: u32,
}

impl CpuMonitor {
    /// The stored previous snapshot.
    pub closed spec fn prev(&self) -> Option<CpuStats> {
        self.previous_stats
    }

    /// The count of consecutive errors.
    pub closed spec fn errors(&self) -> u32 {
        self.error_count
    }

    /// A fresh monitor: no previous snapshot, no errors.
    pub fn new() -> (r: Self)
        ensures
            r.prev() is None,
            r.errors() == 0,
    {
        CpuMonitor { previous_stats: None, error_count: 0 }
    }

    /// Parses the first line of a `/proc/stat`-style snapshot into counters.
    /// Missing trailing fields (beyond the first four) default to zero.
    pub fn parse_proc_stat(content: &str) -> (r: Result<CpuStats, String>)
        ensures
            r is Ok <==> cpu_parse_ok(content@),
            (match r {
                Ok(st) => st == spec_cpu_stats(cpu_fields(content@)),
                Err(m) => m@ == cpu_parse_error_msg(content@),
            }),
    {
        let cs = chars_of(content);
        if cs.len() == 0 {
            return Err("Empty /proc/stat file".to_owned());
        }
        let nl = find_char_at(&cs, '\n', 0);
        proof {
            crate::text::lemma_find_char(cs@, '\n', 0);
        }
        let line_end: usize = if nl < cs.len() && nl > 0 && cs[nl - 1] == '\r' {
            nl - 1
        } else {
            nl
        };
        let line = copy_range(&cs, 0, line_end);
        proof {
            assert(line@ =~= first_line(content@));
        }
        let toks = split_tokens(&line);
        let ghost fs = cpu_fields(content@);
        proof {
            if toks@.len() <= 1 {
                assert(fs =~= Seq::<Seq<char>>::empty());
            } else if toks@.len() > 9 {
                assert(fs =~= toks.deep_view().subrange(1, 9));
            } else {
                assert(fs =~= toks.deep_view().subrange(1, toks@.len() as int));
            }
        }
        let mut vals: Vec<u64> = Vec::new();
        let mut k: usize = 1;
        while k < toks.len() && k < 9
            invariant
                1 <= k <= 9,
                toks.deep_view() == tokens_of(first_line(content@)),
                fs == cpu_fields(content@),
                toks@.len() > 1 ==> fs.len() == (if toks@.len() > 9 {
                    8int
                } else {
                    toks@.len() - 1
                }),
                toks@.len() > 1 ==> (forall|j: int|
                    0 <= j < fs.len() ==> fs[j] == toks.deep_view()[j + 1]),
                toks@.len() <= 1 ==> fs.len() == 0,
                toks@.len() == 0 ==> k == 1,
                toks@.len() > 0 ==> k <= toks@.len(),
                vals@.len() == k - 1,
                forall|j: int| 0 <= j < k - 1 ==> is_u64_token(#[trigger] fs[j]),
                forall|j: int|
                    0 <= j < k - 1 ==> vals@[j] == u64_token_val(#[trigger] fs[j]) as u64,
            decreases toks@.len() - k,
        {
            let tok = &toks[k];
            proof {
                assert(toks.deep_view()[k as int] == toks@[k as int].deep_view());
                crate::text::lemma_chars_deep_view(toks@[k as int]);
                assert(fs[k - 1] == tok@);
            }
            match parse_u64(tok) {
                Some(v) => {
                    vals.push(v);
                },
                None => {
                    proof {
                        assert(!is_u64_token(fs[k - 1]));
                        assert(!cpu_fields_parse(fs));
                    }
                    return Err("Failed to parse CPU values".to_owned());
                },
            }
            k += 1;
        }
        proof {
            assert(vals@.len() == fs.len());
            assert(cpu_fields_parse(fs));
        }
        if vals.len() < 4 {
            return Err("Not enough CPU stats in /proc/stat".to_owned());
        }
        let st = CpuStats {
            user: vals[0],
            nice: vals[1],
            system: vals[2],
            idle: vals[3],
            iowait: if vals.len() > 4 {
                vals[4]
            } else {
                0
            },
            irq: if vals.len() > 5 {
                vals[5]
            } else {
                0
            },
            softirq: if vals.len() > 6 {
                vals[6]
            } else {
                0
            },
            steal: if vals.len() > 7 {
                vals[7]
            } else {
                0
            },
        };
        Ok(st)
    }

    /// Parses a fresh snapshot and reports the utilization percentage
    /// against the stored previous one. The first successful sample only
    /// stores state and reports zero. A successful sample resets the error
    /// count; a malformed snapshot leaves the monitor untouched and hands
    /// the error to the caller.
    pub fn get_cpu_usage(&mut self, content: &str) -> (r: Result<u64, String>)
        ensures
            r is Ok <==> cpu_parse_ok(content@),
            (match r {
                Ok(pct) => {
                    let cur = spec_cpu_stats(cpu_fields(content@));
                    &&& final(self).prev() == Some(cur)
                    &&& final(self).errors() == 0
                    &&& pct == spec_usage(old(self).prev(), cur)
                    &&& pct <= 100
                },
                Err(m) => {
                    &&& *final(self) == *old(self)
                    &&& m@ == cpu_parse_error_msg(content@)
                },
            }),
    {
        let current_stats = match Self::parse_proc_stat(content) {
            Ok(st) => st,
            Err(e) => {
                return Err(e);
            },
        };
        self.error_count = 0;
        let usage: u64 = match &self.previous_stats {
            None => 0,
            Some(prev) => {
                let total_delta = current_stats.total().saturating_sub(prev.total());
                let active_delta = current_stats.active().saturating_sub(prev.active());
                if total_delta > 0 {
                    let pct = (active_delta as u128 * 100) / (total_delta as u128);
                    if pct > 100 {
                        100
                    } else {
                        pct as u64
                    }
                } else {
                    0
                }
            },
        };
        self.previous_stats = Some(current_stats);
        Ok(usage)
    }

    /// Records one more consecutive sampling error and returns the
    /// utilization percentage to report in its place: a fixed degraded `0`
    /// once five consecutive errors have accumulated, a deliberately
    /// neutral `50` before that, so that a persistent failure does not
    /// masquerade as a healthy reading.
    pub fn handle_error(&mut self) -> (r: u64)
        ensures
            final(self).prev() == old(self).prev(),
            final(self).errors()
                == if old(self).errors() < u32::MAX {
                    old(self).errors() + 1
                } else {
                    u32::MAX as int
                },
            r == if final(self).errors() >= 5 {
                0int
            } else {
                50int
            },
    {
        self.error_count = self.error_count.saturating_add(1);
        if self.error_count >= 5 {
            0
        } else {
            50
        }
    }
}

/// CSS severity class for a CPU utilization percentage: below 30 is `low`,
/// below 70 is `medium`, anything else `high`.
pub open spec fn spec_cpu_css_class(usage: u64) -> Seq<char> {
    if usage < 30 {
        "low"@
    } else if usage < 70 {
        "medium"@
    } else {
        "high"@
    }
}

/// Runtime choice matching [`spec_cpu_css_class`].
pub fn cpu_css_class(usage: u64) -> (r: &'static str)
    ensures
        r@ == spec_cpu_css_class(usage),
{
    if usage < 30 {
        "low"
    } else if usage < 70 {
        "medium"
    } else {
        "high"
    }
}

/// For every pair of counter snapshots, the derived utilization is a
/// percentage: it lies in `[0, 100]`.
pub proof fn lemma_usage_in_range(prev: Option<CpuStats>, cur: CpuStats)
    ensures
        0 <= spec_usage(prev, cur) <= 100,
{
    if prev is Some {
        let p = prev->0;
        let td = sat_sub(cur.spec_total(), p.spec_total());
        let ad = sat_sub(cur.spec_active(), p.spec_active());
        if td > 0 {
            assert(ad * 100 >= 0) by (nonlinear_arith)
                requires
                    ad >= 0,
            ;
            assert(ad * 100 / td >= 0) by (nonlinear_arith)
                requires
                    ad * 100 >= 0 && td > 0,
            ;
        }
    }
}

/// A freshly constructed monitor reports zero utilization for its first
/// sample: with no previous snapshot, the usage is zero by definition.
pub proof fn lemma_first_sample_zero(cur: CpuStats)
    ensures
        spec_usage(None, cur) == 0,
{
}

/// Counter regression is harmless: when the new total counter is no larger
/// than the previous one, the saturating delta is zero and the utilization
/// for that tick is reported as zero, never a negative or wrapped value.
pub proof fn lemma_regression_reports_zero(p: CpuStats, cur: CpuStats)
    requires
        cur.spec_total() <= p.spec_total(),
    ensures
        spec_usage(Some(p), cur) == 0,
{
}

} // verus!
