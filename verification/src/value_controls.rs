//! Value steps from the wheel and keys, edited values, and the throttle that
//! spaces out live writes while a control is being dragged.
use vstd::prelude::*;

use crate::text::{parse_u32_radix, trim_seq, trim_str, u32_from_str_radix};

verus! {

/// One step up for a wheel turn away from the user, one down towards them.
pub fn wheel_feature_delta(delta: i32) -> (r: Option<i32>)
    ensures
        r == (if delta > 0 {
            Some(1i32)
        } else if delta < 0 {
            Some(-1i32)
        } else {
            None
        }),
{
    if delta > 0 {
        Some(1)
    } else if delta < 0 {
        Some(-1)
    } else {
        None
    }
}

/// Virtual key codes of the arrow keys that step a value.
pub const VK_UP: u32 = 0x26;

pub const VK_DOWN: u32 = 0x28;

/// One step up for the up arrow, one down for the down arrow.
pub fn key_feature_delta(key: u32) -> (r: Option<i32>)
    ensures
        r == (if key == VK_UP {
            Some(1i32)
        } else if key == VK_DOWN {
            Some(-1i32)
        } else {
            None
        }),
{
    if key == VK_UP {
        Some(1)
    } else if key == VK_DOWN {
        Some(-1)
    } else {
        None
    }
}

/// A value moved by `delta` and held within `0..=maximum`. The current value
/// is taken as a signed 32-bit number.
pub fn adjusted_feature_value(current: u32, maximum: u32, delta: i32) -> (r: u32)
    requires
        maximum <= i32::MAX,
        i32::MIN <= (current as i32) + delta <= i32::MAX,
    ensures
        ({
            let moved = (current as i32) + delta;
            r == (if moved < 0 {
                0
            } else if moved > maximum {
                maximum as int
            } else {
                moved
            })
        }),
{
    let moved: i32 = (current as i32) + delta;
    if moved < 0 {
        0
    } else if moved > maximum as i32 {
        maximum
    } else {
        moved as u32
    }
}

/// A value typed by the user: a decimal number, surrounding whitespace
/// ignored, capped at `maximum`.
pub fn parse_feature_value(input: &str, maximum: u32) -> (r: Option<u32>)
    ensures
        r == (match parse_u32_radix(trim_seq(input@), 10) {
            Some(v) => Some(if v > maximum {
                maximum
            } else {
                v
            }),
            None => None,
        }),
{
    let trimmed = trim_str(input);
    match u32_from_str_radix(trimmed.as_str(), 10) {
        Ok(v) => Some(
            if v > maximum {
                maximum
            } else {
                v
            },
        ),
        Err(_) => None,
    }
}

/// The state of a write throttle.
pub struct ThrottleView {
    pub interval_ms: u64,
    pub last_sent_at_ms: Option<u64>,
    pub pending_value: Option<u32>,
}

/// The time since `since`, or zero if `now` is earlier.
pub open spec fn elapsed(now: u64, since: u64) -> int {
    if now >= since {
        now - since
    } else {
        0
    }
}

/// A live value: sent at once when the window since the last send has
/// passed (or nothing was sent yet), otherwise kept as the pending value,
/// replacing any earlier one.
pub open spec fn schedule_spec(t: ThrottleView, now: u64, value: u32) -> (ThrottleView, Option<u32>) {
    match t.last_sent_at_ms {
        Some(last) if elapsed(now, last) < t.interval_ms => (
            ThrottleView { pending_value: Some(value), ..t },
            None,
        ),
        _ => (
            ThrottleView { last_sent_at_ms: Some(now), pending_value: None, ..t },
            Some(value),
        ),
    }
}

/// A tick: the pending value is sent once the window has passed.
pub open spec fn tick_spec(t: ThrottleView, now: u64) -> (ThrottleView, Option<u32>) {
    match t.pending_value {
        None => (t, None),
        Some(p) => {
            let last = match t.last_sent_at_ms {
                Some(l) => l,
                None => now,
            };
            if elapsed(now, last) < t.interval_ms {
                (t, None)
            } else {
                (ThrottleView { last_sent_at_ms: Some(now), pending_value: None, ..t }, Some(p))
            }
        },
    }
}

/// Spaces out live writes: the first value of a burst is sent at once, later
/// ones inside the window are coalesced to the last, which a tick sends when
/// the window has passed.
#[derive(Clone, Copy, Debug, Eq, PartialEq)]
pub struct WriteThrottle {
    interval_ms: u64,
    last_sent_at_ms: Option<u64>,
    pending_value: Option<u32>,
}

impl View for WriteThrottle {
    type V = ThrottleView;

    closed spec fn view(&self) -> ThrottleView {
        ThrottleView {
            interval_ms: self.interval_ms,
            last_sent_at_ms: self.last_sent_at_ms,
            pending_value: self.pending_value,
        }
    }
}

/// The interval of the default throttle, in milliseconds.
pub const DEFAULT_WRITE_INTERVAL_MS: u64 = 140;

impl WriteThrottle {
    pub fn new(interval_ms: u64) -> (t: Self)
        ensures
            t@ == (ThrottleView {
                interval_ms,
                last_sent_at_ms: None,
                pending_value: None,
            }),
    {
        WriteThrottle { interval_ms, last_sent_at_ms: None, pending_value: None }
    }

    /// Offers a live value; returns it if it is to be sent now.
    pub fn schedule(&mut self, now_ms: u64, value: u32) -> (r: Option<u32>)
        ensures
            (final(self)@, r) == schedule_spec(old(self)@, now_ms, value),
    {
        match self.last_sent_at_ms {
            Some(last) if now_ms.saturating_sub(last) < self.interval_ms => {
                self.pending_value = Some(value);
                None
            },
            _ => {
                self.last_sent_at_ms = Some(now_ms);
                self.pending_value = None;
                Some(value)
            },
        }
    }

    /// Returns the pending value if it is due.
    pub fn tick(&mut self, now_ms: u64) -> (r: Option<u32>)
        ensures
            (final(self)@, r) == tick_spec(old(self)@, now_ms),
    {
        let pending_value = match self.pending_value {
            Some(p) => p,
            None => {
                return None;
            },
        };
        let last_sent_at_ms = match self.last_sent_at_ms {
            Some(l) => l,
            None => now_ms,
        };
        if now_ms.saturating_sub(last_sent_at_ms) < self.interval_ms {
            return None;
        }
        self.pending_value = None;
        self.last_sent_at_ms = Some(now_ms);
        Some(pending_value)
    }

    /// Sends a value now, dropping any pending one.
    pub fn force(&mut self, now_ms: u64, value: u32) -> (r: u32)
        ensures
            r == value,
            final(self)@ == (ThrottleView {
                last_sent_at_ms: Some(now_ms),
                pending_value: None,
                ..old(self)@
            }),
    {
        self.pending_value = None;
        self.last_sent_at_ms = Some(now_ms);
        value
    }

    /// Forgets the pending value and the last send: the next value goes out at once.
    pub fn reset(&mut self)
        ensures
            final(self)@ == (ThrottleView {
                last_sent_at_ms: None,
                pending_value: None,
                ..old(self)@
            }),
    {
        self.pending_value = None;
        self.last_sent_at_ms = None;
    }

    pub fn has_pending(&self) -> (r: bool)
        ensures
            r == self@.pending_value is Some,
    {
        self.pending_value.is_some()
    }
}

impl Default for WriteThrottle {
    fn default() -> (t: Self)
        ensures
            t@ == (ThrottleView {
                interval_ms: DEFAULT_WRITE_INTERVAL_MS,
                last_sent_at_ms: None,
                pending_value: None,
            }),
    {
        Self::new(DEFAULT_WRITE_INTERVAL_MS)
    }
}

/// A scheduled value is never lost: it is sent at once or becomes the
/// pending value, which is the last one scheduled.
pub proof fn law_scheduled_value_is_sent_or_pending(t: ThrottleView, now: u64, value: u32)
    ensures
        ({
            let (next, sent) = schedule_spec(t, now, value);
            sent == Some(value) || (sent is None && next.pending_value == Some(value))
        }),
{
}

/// Sends are spaced: neither a schedule nor a tick sends anything before the
/// window since the last send has passed.
pub proof fn law_no_send_inside_the_window(t: ThrottleView, now: u64, value: u32)
    requires
        t.last_sent_at_ms matches Some(last) && elapsed(now, last) < t.interval_ms,
    ensures
        schedule_spec(t, now, value).1 is None,
        tick_spec(t, now).1 is None,
{
}

/// Values scheduled inside the window coalesce: after a send, a burst of
/// values inside the window is delivered by the next due tick as the last
/// value of the burst.
pub proof fn law_burst_coalesces_to_last_value(
    t: ThrottleView,
    sent_at: u64,
    first: u32,
    second_at: u64,
    second: u32,
    third_at: u64,
    third: u32,
    tick_at: u64,
)
    requires
        t.interval_ms > 0,
        sent_at <= second_at <= third_at <= tick_at,
        schedule_spec(t, sent_at, first).1 == Some(first),
        second_at - sent_at < t.interval_ms,
        third_at - sent_at < t.interval_ms,
        tick_at - sent_at >= t.interval_ms,
    ensures
        ({
            let t1 = schedule_spec(t, sent_at, first).0;
            let (t2, r2) = schedule_spec(t1, second_at, second);
            let (t3, r3) = schedule_spec(t2, third_at, third);
            let (t4, r4) = tick_spec(t3, tick_at);
            r2 is None && r3 is None && r4 == Some(third) && t4.pending_value is None
        }),
{
}

/// Forcing a value leaves nothing for a later tick to send.
pub proof fn law_force_clears_pending(t: ThrottleView, now: u64, later: u64)
    ensures
        tick_spec(ThrottleView { last_sent_at_ms: Some(now), pending_value: None, ..t }, later).1 is None,
{
}

} // verus!
