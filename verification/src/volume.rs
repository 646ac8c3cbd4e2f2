//! Volume logic: parsing the audio server's replies, relative volume
//! adjustment, scroll-gesture coalescing, and the display strings.
//!
//! The audio server is only signalled that "something changed"; the values
//! themselves always come from a fresh query whose reply text is parsed
//! here.

use vstd::prelude::*;

use crate::text::{
    chars_eq, chars_of, contains_chars, contains_seq, dec_digits, ends_with, ends_with_chars,
    is_u64_token, replace_seq, replace_str, tokens_of, trimmed, trim_bounds, u64_to_string,
    u64_token_val, unsigned_digits,
};
use vstd::string::StringExecFns;

verus! {

/// Why a volume query failed.
#[derive(Debug)]
pub enum VolumeError {
    CommandFailed(String),
    ParseError(String),
    IoError(String),
}

impl VolumeError {
    /// The display text of the error.
    pub fn message(&self) -> (r: String)
        ensures
            (match self {
                VolumeError::CommandFailed(m) => r@ == "Command failed: "@ + m@,
                VolumeError::ParseError(m) => r@ == "Parse error: "@ + m@,
                VolumeError::IoError(m) => r@ == "IO error: "@ + m@,
            }),
    {
        match self {
            VolumeError::CommandFailed(m) => {
                let mut s = "Command failed: ".to_owned();
                s.append(m.as_str());
                s
            },
            VolumeError::ParseError(m) => {
                let mut s = "Parse error: ".to_owned();
                s.append(m.as_str());
                s
            },
            VolumeError::IoError(m) => {
                let mut s = "IO error: ".to_owned();
                s.append(m.as_str());
                s
            },
        }
    }
}

/// One volume sample: the sink's level and mute flag.
#[derive(Debug, Clone, Copy, PartialEq, Eq, Structural)]
pub struct VolumeInfo {
    pub percentage: u8,
    pub is_muted: bool,
}

/// The icon word of a volume sample: muted at zero or when muted, then
/// low, medium and high by thirds.
pub open spec fn spec_volume_info_icon(v: VolumeInfo) -> Seq<char> {
    if v.is_muted || v.percentage == 0 {
        "audio-volume-muted"@
    } else if v.percentage <= 33 {
        "audio-volume-low"@
    } else if v.percentage <= 66 {
        "audio-volume-medium"@
    } else {
        "audio-volume-high"@
    }
}

impl VolumeInfo {
    /// The sample's display text: its icon word and its percentage.
    pub fn display_text(&self) -> (r: String)
        ensures
            r@ == spec_volume_info_icon(*self) + " "@ + dec_digits(self.percentage as int)
                + "%"@,
    {
        let icon: &str = if self.is_muted || self.percentage == 0 {
            "audio-volume-muted"
        } else if self.percentage <= 33 {
            "audio-volume-low"
        } else if self.percentage <= 66 {
            "audio-volume-medium"
        } else {
            "audio-volume-high"
        };
        let mut s = icon.to_owned();
        s.append(" ");
        let p = u64_to_string(self.percentage as u64);
        s.append(p.as_str());
        s.append("%");
        proof {
            assert(s@ =~= spec_volume_info_icon(*self) + " "@ + dec_digits(self.percentage as int)
                + "%"@);
        }
        s
    }
}

/// Index of the first token at or after `i` that ends with a percent
/// sign.
pub open spec fn find_pct_token(toks: Seq<Seq<char>>, i: int) -> int
    decreases toks.len() - i,
    when i >= 0
{
    if i >= toks.len() {
        toks.len() as int
    } else if toks[i].len() > 0 && toks[i].last() == '%' {
        i
    } else {
        find_pct_token(toks, i + 1)
    }
}

/// What parsing a volume reply yields: the first percent-suffixed token,
/// stripped of its sign, must read as an eight-bit number (the width the
/// audio client prints); the accepted level is then clamped to 100, since
/// sample percentages never exceed the displayable range — a boosted sink
/// above a hundred percent shows as exactly one hundred. A reply with no
/// such token, or one whose digits do not fit, yields nothing.
pub open spec fn spec_parse_volume(s: Seq<char>) -> Option<u8> {
    let toks = tokens_of(s);
    let k = find_pct_token(toks, 0);
    if k < toks.len() {
        let body = toks[k].drop_last();
        if body.len() > 0 && is_u64_token(body) && u64_token_val(body) <= 255 {
            if u64_token_val(body) <= 100 {
                Some(u64_token_val(body) as u8)
            } else {
                Some(100u8)
            }
        } else {
            None
        }
    } else {
        None
    }
}

/// Parses the sink-volume reply: the first percent-suffixed token decides;
/// a reply without a readable one is a parse error.
pub fn parse_volume(output: &str) -> (r: Result<u8, VolumeError>)
    ensures
        (match r {
            Ok(v) => spec_parse_volume(output@) == Some(v) && v <= 100,
            Err(e) => {
                &&& spec_parse_volume(output@) is None
                &&& (e matches VolumeError::ParseError(m) && m@ == "No volume percentage found"@)
            },
        }),
{
    let cv = chars_of(output);
    let trs = crate::text::token_ranges(&cv);
    let mut k: usize = 0;
    let ghost toks = tokens_of(output@);
    while k < trs.len()
        invariant
            k <= trs@.len(),
            crate::text::ranges_of_tokens(cv@, trs@),
            cv@ == output@,
            toks == tokens_of(output@),
            forall|j: int| 0 <= j < k ==> !(toks[j].len() > 0 && toks[j].last() == '%'),
        decreases trs@.len() - k,
    {
        let rg = trs[k];
        proof {
            assert(crate::text::range_denotes(cv@, trs@[k as int], toks[k as int]));
        }
        if rg.1 > rg.0 && cv[rg.1 - 1] == '%' {
            proof {
                lemma_find_pct_token(toks, 0, k as int);
            }
            let body = crate::text::copy_range(&cv, rg.0, rg.1 - 1);
            proof {
                assert(body@ =~= toks[k as int].drop_last());
            }
            if body.len() == 0 {
                return Err(VolumeError::ParseError("No volume percentage found".to_owned()));
            }
            match crate::text::parse_u64(&body) {
                Some(v) => {
                    proof {
                        crate::text::lemma_digits_val_nonneg(unsigned_digits(body@));
                    }
                    if v <= 100 {
                        return Ok(v as u8);
                    } else if v <= 255 {
                        return Ok(100);
                    } else {
                        return Err(
                            VolumeError::ParseError("No volume percentage found".to_owned()),
                        );
                    }
                },
                None => {
                    return Err(VolumeError::ParseError("No volume percentage found".to_owned()));
                },
            }
        }
        k += 1;
    }
    proof {
        lemma_find_pct_token(toks, 0, toks.len() as int);
    }
    Err(VolumeError::ParseError("No volume percentage found".to_owned()))
}

/// The first percent-suffixed token at index `w`, with none before it,
/// pins [`find_pct_token`].
proof fn lemma_find_pct_token(toks: Seq<Seq<char>>, j: int, w: int)
    requires
        0 <= j <= w <= toks.len(),
        forall|k: int| j <= k < w ==> !(toks[k].len() > 0 && toks[k].last() == '%'),
        w < toks.len() ==> toks[w].len() > 0 && toks[w].last() == '%',
    ensures
        find_pct_token(toks, j) == if w < toks.len() {
            w
        } else {
            toks.len() as int
        },
    decreases w - j,
{
    if j < w {
        lemma_find_pct_token(toks, j + 1, w);
    }
}

/// Whether a mute reply says the sink is muted: its trimmed text ends in
/// `yes`.
pub open spec fn spec_parse_mute(s: Seq<char>) -> bool {
    ends_with(trimmed(s), "yes"@)
}

/// Parses the sink-mute reply.
pub fn parse_mute(output: &str) -> (r: bool)
    ensures
        r == spec_parse_mute(output@),
{
    let cv = chars_of(output);
    let tb = trim_bounds(&cv);
    let t = crate::text::copy_range(&cv, tb.0, tb.1);
    let yes = chars_of("yes");
    ends_with_chars(&t, &yes)
}

/// Whether an event line of the change stream concerns a sink update: it
/// names a sink and reports a change or an addition.
pub open spec fn spec_is_sink_event(line: Seq<char>) -> bool {
    contains_seq(line, "sink"@) && (contains_seq(line, "change"@) || contains_seq(line, "new"@))
}

/// Runtime test matching [`spec_is_sink_event`].
pub fn is_sink_event(line: &str) -> (r: bool)
    ensures
        r == spec_is_sink_event(line@),
{
    let lv = chars_of(line);
    let sink = chars_of("sink");
    let change = chars_of("change");
    let new_pat = chars_of("new");
    contains_chars(&lv, &sink) && (contains_chars(&lv, &change) || contains_chars(&lv, &new_pat))
}

/// The volume that one relative adjustment yields: a non-negative delta
/// raises the level and caps it at one hundred; a negative one lowers it
/// and stops at zero. A level already above one hundred is only capped
/// when raising.
pub open spec fn spec_apply_delta(current: u8, amount: int) -> int {
    if amount >= 0 {
        if current + amount <= 100 {
            current + amount
        } else {
            100
        }
    } else {
        if current + amount >= 0 {
            current + amount
        } else {
            0
        }
    }
}

/// Applies one relative adjustment to the current level.
pub fn apply_volume_delta(current: u8, amount: i32) -> (r: u8)
    ensures
        r == spec_apply_delta(current, amount as int),
{
    let v: i64 = current as i64 + amount as i64;
    if amount >= 0 {
        if v <= 100 {
            v as u8
        } else {
            100
        }
    } else {
        if v >= 0 {
            v as u8
        } else {
            0
        }
    }
}

/// The adjustment never leaves the displayable range: from any starting
/// level of at most one hundred — which [`parse_volume`] guarantees of
/// every level it accepts — the adjusted level stays in `[0, 100]` for
/// every delta.
pub proof fn lemma_delta_in_range(current: u8, amount: int)
    requires
        current <= 100,
    ensures
        0 <= spec_apply_delta(current, amount) <= 100,
{
}

/// An `i32` value clamped to the representable range.
pub open spec fn sat_i32_acc(x: int) -> int {
    if x > i32::MAX {
        i32::MAX as int
    } else if x < i32::MIN {
        i32::MIN as int
    } else {
        x
    }
}

/// Accumulator for rapid scroll gestures: up- and down-ticks add into a
/// pending delta that a periodic flush turns into a single adjustment
/// call, bounding the number of external calls under fast scrolling.
pub struct ScrollAccum {
    pending: i32,
}

impl ScrollAccum {
    /// The accumulated pending delta.
    pub closed spec fn pending(&self) -> int {
        self.pending as int
    }

    /// A fresh accumulator with nothing pending.
    pub fn new() -> (r: Self)
        ensures
            r.pending() == 0,
    {
        ScrollAccum { pending: 0 }
    }

    /// Records one upward scroll tick.
    pub fn tick_up(&mut self)
        ensures
            final(self).pending() == sat_i32_acc(old(self).pending() + 1),
    {
        self.pending = add_sat_i32(self.pending, 1);
    }

    /// Records one downward scroll tick.
    pub fn tick_down(&mut self)
        ensures
            final(self).pending() == sat_i32_acc(old(self).pending() - 1),
    {
        self.pending = add_sat_i32(self.pending, -1);
    }

    /// Takes the pending delta out, leaving nothing pending: the single
    /// adjustment the whole burst coalesces into.
    pub fn flush(&mut self) -> (r: i32)
        ensures
            r == old(self).pending(),
            final(self).pending() == 0,
    {
        let d = self.pending;
        self.pending = 0;
        d
    }
}

/// Saturating `i32` addition.
fn add_sat_i32(a: i32, b: i32) -> (r: i32)
    ensures
        r == sat_i32_acc(a + b),
{
    match a.checked_add(b) {
        Some(v) => v,
        None => {
            if b > 0 {
                i32::MAX
            } else {
                i32::MIN
            }
        },
    }
}

/// A burst of scroll ticks as a sequence: `true` is an up-tick.
pub open spec fn spec_net_delta(ticks: Seq<bool>) -> int
    decreases ticks.len(),
{
    if ticks.len() == 0 {
        0
    } else {
        spec_net_delta(ticks.drop_last()) + if ticks.last() {
            1
        } else {
            -1
        }
    }
}

/// What the accumulator holds after a burst of ticks from a fresh start.
pub open spec fn spec_accum(ticks: Seq<bool>) -> int
    decreases ticks.len(),
{
    if ticks.len() == 0 {
        0
    } else {
        sat_i32_acc(
            spec_accum(ticks.drop_last()) + if ticks.last() {
                1
            } else {
                -1
            },
        )
    }
}

/// Scroll coalescing: any burst of rapid ticks fed into a fresh
/// accumulator flushes to exactly the algebraic sum of its deltas — the
/// saturation bound is out of reach for any burst shorter than the `i32`
/// range.
pub proof fn lemma_scroll_coalescing(ticks: Seq<bool>)
    requires
        ticks.len() < i32::MAX,
    ensures
        spec_accum(ticks) == spec_net_delta(ticks),
        -ticks.len() <= spec_net_delta(ticks) <= ticks.len(),
    decreases ticks.len(),
{
    if ticks.len() > 0 {
        lemma_scroll_coalescing(ticks.drop_last());
    }
}

/// Lifecycle of the audio subscription:
/// `Idle -> Subscribed -> Streaming -> [Stopped | Failed]`.
#[derive(Debug, Clone, Copy, PartialEq, Eq, Structural)]
pub enum AudioStreamState {
    Idle,
    Subscribed,
    Streaming,
    Stopped,
    Failed,
}

/// What happens to the audio subscription.
#[derive(Debug, Clone, Copy, PartialEq, Eq, Structural)]
pub enum AudioStreamEvent {
    ListenerSpawned,
    SpawnFailed,
    FirstSampleEmitted,
    SinkChanged,
    OtherLine,
    ReceiverGone,
    StreamEnded,
}

/// What the consumer of a transition must do.
#[derive(Debug, Clone, Copy, PartialEq, Eq, Structural)]
pub enum AudioStreamAction {
    Nothing,
    EmitInitialSample,
    RequeryAndEmit,
    ReportFailure,
}

/// One step of the subscription lifecycle. Spawning the listener emits one
/// synchronous sample immediately; each sink event in the stream triggers
/// a fresh re-query (the events carry no values); a vanished receiver or a
/// finished stream stops the monitor; a spawn failure is reported once.
/// `Stopped` and `Failed` absorb every further event: the monitor never
/// restarts by itself.
pub open spec fn spec_audio_step(state: AudioStreamState, event: AudioStreamEvent) -> (
    AudioStreamState,
    AudioStreamAction,
) {
    match state {
        AudioStreamState::Idle => match event {
            AudioStreamEvent::ListenerSpawned => (
                AudioStreamState::Subscribed,
                AudioStreamAction::EmitInitialSample,
            ),
            AudioStreamEvent::SpawnFailed => (
                AudioStreamState::Failed,
                AudioStreamAction::ReportFailure,
            ),
            _ => (AudioStreamState::Idle, AudioStreamAction::Nothing),
        },
        AudioStreamState::Subscribed => match event {
            AudioStreamEvent::FirstSampleEmitted => (
                AudioStreamState::Streaming,
                AudioStreamAction::Nothing,
            ),
            AudioStreamEvent::ReceiverGone => (
                AudioStreamState::Stopped,
                AudioStreamAction::Nothing,
            ),
            _ => (AudioStreamState::Subscribed, AudioStreamAction::Nothing),
        },
        AudioStreamState::Streaming => match event {
            AudioStreamEvent::SinkChanged => (
                AudioStreamState::Streaming,
                AudioStreamAction::RequeryAndEmit,
            ),
            AudioStreamEvent::ReceiverGone => (
                AudioStreamState::Stopped,
                AudioStreamAction::Nothing,
            ),
            AudioStreamEvent::StreamEnded => (
                AudioStreamState::Stopped,
                AudioStreamAction::Nothing,
            ),
            _ => (AudioStreamState::Streaming, AudioStreamAction::Nothing),
        },
        AudioStreamState::Stopped => (AudioStreamState::Stopped, AudioStreamAction::Nothing),
        AudioStreamState::Failed => (AudioStreamState::Failed, AudioStreamAction::Nothing),
    }
}

/// Runtime step matching [`spec_audio_step`].
pub fn audio_stream_step(state: AudioStreamState, event: AudioStreamEvent) -> (r: (
    AudioStreamState,
    AudioStreamAction,
))
    ensures
        r == spec_audio_step(state, event),
{
    match state {
        AudioStreamState::Idle => match event {
            AudioStreamEvent::ListenerSpawned => (
                AudioStreamState::Subscribed,
                AudioStreamAction::EmitInitialSample,
            ),
            AudioStreamEvent::SpawnFailed => (
                AudioStreamState::Failed,
                AudioStreamAction::ReportFailure,
            ),
            _ => (AudioStreamState::Idle, AudioStreamAction::Nothing),
        },
        AudioStreamState::Subscribed => match event {
            AudioStreamEvent::FirstSampleEmitted => (
                AudioStreamState::Streaming,
                AudioStreamAction::Nothing,
            ),
            AudioStreamEvent::ReceiverGone => (
                AudioStreamState::Stopped,
                AudioStreamAction::Nothing,
            ),
            _ => (AudioStreamState::Subscribed, AudioStreamAction::Nothing),
        },
        AudioStreamState::Streaming => match event {
            AudioStreamEvent::SinkChanged => (
                AudioStreamState::Streaming,
                AudioStreamAction::RequeryAndEmit,
            ),
            AudioStreamEvent::ReceiverGone => (
                AudioStreamState::Stopped,
                AudioStreamAction::Nothing,
            ),
            AudioStreamEvent::StreamEnded => (
                AudioStreamState::Stopped,
                AudioStreamAction::Nothing,
            ),
            _ => (AudioStreamState::Streaming, AudioStreamAction::Nothing),
        },
        AudioStreamState::Stopped => (AudioStreamState::Stopped, AudioStreamAction::Nothing),
        AudioStreamState::Failed => (AudioStreamState::Failed, AudioStreamAction::Nothing),
    }
}

/// A failed or stopped subscription never comes back: whatever arrives,
/// the state stays and nothing more is done — the documented
/// no-automatic-restart limitation.
pub proof fn lemma_audio_terminal_states(event: AudioStreamEvent)
    ensures
        spec_audio_step(AudioStreamState::Failed, event) == (
            AudioStreamState::Failed,
            AudioStreamAction::Nothing,
        ),
        spec_audio_step(AudioStreamState::Stopped, event) == (
            AudioStreamState::Stopped,
            AudioStreamAction::Nothing,
        ),
{
}

/// Display configuration of the volume module: the tooltip template and
/// whether the tooltip is shown.
#[derive(Debug, Clone)]
pub struct VolumeConfig {
    pub tooltip_format: String,
    pub tooltip: bool,
}

impl Default for VolumeConfig {
    /// The built-in template: percentage and state.
    fn default() -> (r: Self)
        ensures
            r.tooltip_format@ == "Volume: {percentage}% ({state})"@,
            r.tooltip,
    {
        VolumeConfig { tooltip_format: "Volume: {percentage}% ({state})".to_owned(), tooltip: true }
    }
}

/// The tooltip template with each token substituted: `{percentage}` by the
/// bare percentage, `{state}` by `muted` or the percentage with a percent
/// sign, `{icon}` by nothing.
pub open spec fn spec_volume_tooltip(fmt: Seq<char>, v: VolumeInfo) -> Seq<char> {
    let state = if v.is_muted {
        "muted"@
    } else {
        dec_digits(v.percentage as int) + "%"@
    };
    let t1 = replace_seq(fmt, "{percentage}"@, dec_digits(v.percentage as int));
    let t2 = replace_seq(t1, "{state}"@, state);
    replace_seq(t2, "{icon}"@, Seq::empty())
}

/// Fills the tooltip template of `config` in for one sample.
pub fn format_volume_tooltip(config: &VolumeConfig, v: &VolumeInfo) -> (r: String)
    ensures
        r@ == spec_volume_tooltip(config.tooltip_format@, *v),
{
    proof {
        reveal_strlit("{percentage}");
        reveal_strlit("{state}");
        reveal_strlit("{icon}");
        reveal_strlit("");
    }
    let pct = u64_to_string(v.percentage as u64);
    let state: String = if v.is_muted {
        "muted".to_owned()
    } else {
        let mut s = u64_to_string(v.percentage as u64);
        s.append("%");
        s
    };
    let t1 = replace_str(config.tooltip_format.as_str(), "{percentage}", pct.as_str());
    let t2 = replace_str(t1.as_str(), "{state}", state.as_str());
    let r = replace_str(t2.as_str(), "{icon}", "");
    proof {
        assert(""@ =~= Seq::<char>::empty());
    }
    r
}

/// Icon name for the volume widget: muted when muted or silent, then low,
/// medium and high by the display thresholds.
pub open spec fn spec_volume_icon_name(percentage: u8, muted: bool) -> Seq<char> {
    if muted {
        "audio-volume-muted-symbolic"@
    } else if percentage > 70 {
        "audio-volume-high-symbolic"@
    } else if percentage > 30 {
        "audio-volume-medium-symbolic"@
    } else if percentage > 0 {
        "audio-volume-low-symbolic"@
    } else {
        "audio-volume-muted-symbolic"@
    }
}

/// Runtime choice matching [`spec_volume_icon_name`].
pub fn volume_icon_name(percentage: u8, muted: bool) -> (r: &'static str)
    ensures
        r@ == spec_volume_icon_name(percentage, muted),
{
    if muted {
        "audio-volume-muted-symbolic"
    } else if percentage > 70 {
        "audio-volume-high-symbolic"
    } else if percentage > 30 {
        "audio-volume-medium-symbolic"
    } else if percentage > 0 {
        "audio-volume-low-symbolic"
    } else {
        "audio-volume-muted-symbolic"
    }
}

} // verus!
