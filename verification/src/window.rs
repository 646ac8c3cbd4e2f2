//! Window-title display logic: title normalization and the debounce that
//! collapses a burst of rapid title events into the latest value only.

use vstd::prelude::*;

use crate::text::trimmed;

verus! {

/// The debounce window for title updates, in milliseconds.
pub const TITLE_DEBOUNCE_MS: u64 = 100;

/// The displayed form of a window title: an empty or whitespace-only
/// title becomes the fixed placeholder, anything else stays as it is.
pub open spec fn spec_normalize_title(title: Seq<char>) -> Seq<char> {
    if trimmed(title).len() == 0 {
        "Desktop"@
    } else {
        title
    }
}

/// Normalizes a reported window title for display.
pub fn normalize_title(title: &str) -> (r: String)
    ensures
        r@ == spec_normalize_title(title@),
{
    let cv = crate::text::chars_of(title);
    let tb = crate::text::trim_bounds(&cv);
    if tb.0 >= tb.1 {
        proof {
            assert(trimmed(title@).len() == 0);
        }
        "Desktop".to_owned()
    } else {
        title.to_owned()
    }
}

/// Debounce for title updates: every arriving title is recorded, but each
/// one recorded inside a burst replaces the one before it, so only the
/// latest is ever pending. A flush hands the pending title out at most
/// once per debounce window — a burst of rapid events collapses to a
/// single label update carrying the latest value, and the label never
/// flickers.
pub struct TitleDebouncer {
    last_update_ms: u64,
    pending_title: Option<String>,
}

/// What is pending after recording one more title: the new title,
/// whatever was pending before.
pub open spec fn spec_record_title(
    pending: Option<Seq<char>>,
    title: Seq<char>,
) -> Option<Seq<char>> {
    Some(title)
}

/// What is pending after a whole burst of recorded titles.
pub open spec fn spec_pending_after(
    pending: Option<Seq<char>>,
    burst: Seq<Seq<char>>,
) -> Option<Seq<char>>
    decreases burst.len(),
{
    if burst.len() == 0 {
        pending
    } else {
        spec_record_title(spec_pending_after(pending, burst.drop_last()), burst.last())
    }
}

/// A burst collapses to its latest value: after any non-empty burst of
/// recorded titles, exactly the last one of the burst is pending —
/// whatever was pending before it began.
pub proof fn lemma_burst_keeps_latest(pending: Option<Seq<char>>, burst: Seq<Seq<char>>)
    requires
        burst.len() > 0,
    ensures
        spec_pending_after(pending, burst) == Some(burst.last()),
{
}

impl TitleDebouncer {
    /// The timestamp of the last applied update.
    pub closed spec fn last(&self) -> u64 {
        self.last_update_ms
    }

    /// The recorded title waiting to be applied, if any.
    pub closed spec fn pending(&self) -> Option<Seq<char>> {
        match self.pending_title {
            Some(ref t) => Some(t@),
            None => None,
        }
    }

    /// A debouncer that saw its last update at the given time, with
    /// nothing pending.
    pub fn new(now_ms: u64) -> (r: Self)
        ensures
            r.last() == now_ms,
            r.pending() is None,
    {
        TitleDebouncer { last_update_ms: now_ms, pending_title: None }
    }

    /// Records one arriving title, replacing any pending one: of a burst,
    /// only the latest value survives.
    pub fn record(&mut self, title: String)
        ensures
            final (self).pending() == spec_record_title(old(self).pending(), title@),
            final (self).last() == old(self).last(),
    {
        self.pending_title = Some(title);
    }

    /// Hands the pending title out once a full debounce window has passed
    /// since the last applied update, recording the application; inside
    /// the window, or with nothing pending, it hands out nothing and
    /// leaves the pending title waiting. Times are milliseconds of a
    /// monotonic clock; an earlier timestamp counts as no time passed.
    pub fn flush(&mut self, now_ms: u64) -> (r: Option<String>)
        ensures
            r is Some <==> (old(self).pending() is Some && now_ms >= old(self).last() && now_ms
                - old(self).last() >= TITLE_DEBOUNCE_MS),
            (r matches Some(t) ==> {
                &&& old(self).pending() == Some(t@)
                &&& final (self).pending() is None
                &&& final (self).last() == now_ms
            }),
            r is None ==> *final (self) == *old(self),
    {
        let elapsed = now_ms.saturating_sub(self.last_update_ms);
        if elapsed >= TITLE_DEBOUNCE_MS {
            match self.pending_title.take() {
                Some(t) => {
                    self.last_update_ms = now_ms;
                    Some(t)
                },
                None => None,
            }
        } else {
            None
        }
    }
}

} // verus!
