//! The focus record of a text box and the blinking of its cursor.
use vstd::prelude::*;

verus! {

/// Length of each half of the cursor's blink cycle, in milliseconds.
pub const CURSOR_BLINK_INTERVAL_MILLIS: u64 = 500;

/// Milliseconds from `from` to `to` on a monotonic clock, or zero when `to`
/// comes first.
pub open spec fn elapsed_ms(from: u64, to: u64) -> nat {
    if to >= from {
        (to - from) as nat
    } else {
        0
    }
}

/// Whether the caret shows after `elapsed` milliseconds of a blink cycle: it
/// shows during even half-cycles and hides during odd ones.
pub open spec fn blink_phase_visible(elapsed: nat) -> bool {
    (elapsed / CURSOR_BLINK_INTERVAL_MILLIS as nat) % 2 == 0
}

/// Milliseconds from `elapsed` to the next blink boundary, in `1..=500`.
pub open spec fn millis_to_boundary(elapsed: nat) -> nat {
    (CURSOR_BLINK_INTERVAL_MILLIS as nat - elapsed % CURSOR_BLINK_INTERVAL_MILLIS as nat) as nat
}

/// The focus record of a focused text box. Times are milliseconds on a
/// monotonic clock.
#[derive(Debug, Clone, Copy, PartialEq, Eq, Structural)]
pub struct Focus {
    /// When the blink cycle last restarted.
    pub updated_at: u64,
    /// The latest time the box has seen.
    pub now: u64,
    /// Whether the window holding the box has the focus.
    pub is_window_focused: bool,
}

impl Focus {
    /// Milliseconds since the blink cycle restarted.
    pub open spec fn elapsed(self) -> nat {
        elapsed_ms(self.updated_at, self.now)
    }

    /// Whether the caret is drawn: only in a focused window, and only during
    /// the visible half of the blink cycle.
    pub open spec fn cursor_visible(self) -> bool {
        self.is_window_focused && blink_phase_visible(self.elapsed())
    }

    /// A fresh focus record at time `now`, in a focused window.
    pub fn now(now: u64) -> (r: Focus)
        ensures
            r == (Focus { updated_at: now, now, is_window_focused: true }),
    {
        Focus { updated_at: now, now, is_window_focused: true }
    }

    /// Whether the caret is drawn at the record's current time.
    pub fn is_cursor_visible(&self) -> (r: bool)
        ensures
            r == self.cursor_visible(),
    {
        let elapsed: u64 = if self.now >= self.updated_at {
            self.now - self.updated_at
        } else {
            0
        };
        self.is_window_focused && (elapsed / CURSOR_BLINK_INTERVAL_MILLIS) % 2 == 0
    }

    /// Milliseconds from the record's current time to the next blink
    /// boundary, when the caret next changes.
    pub fn millis_until_blink(&self) -> (r: u64)
        ensures
            r as nat == millis_to_boundary(self.elapsed()),
            1 <= r <= CURSOR_BLINK_INTERVAL_MILLIS,
    {
        let elapsed: u64 = if self.now >= self.updated_at {
            self.now - self.updated_at
        } else {
            0
        };
        CURSOR_BLINK_INTERVAL_MILLIS - elapsed % CURSOR_BLINK_INTERVAL_MILLIS
    }
}

/// The caret's visibility flips at every blink boundary: it shows at
/// `elapsed` exactly when it hides half a cycle later.
pub proof fn blink_flips_every_interval(elapsed: nat)
    ensures
        blink_phase_visible(elapsed) != blink_phase_visible(
            elapsed + CURSOR_BLINK_INTERVAL_MILLIS as nat,
        ),
{
    let n = CURSOR_BLINK_INTERVAL_MILLIS as nat;
    assert((elapsed + n) / n == elapsed / n + 1) by (nonlinear_arith)
        requires
            n == 500,
    ;
}

/// The caret never shows while the window is unfocused, however long ago
/// the blink cycle restarted.
pub proof fn hidden_in_unfocused_window(f: Focus)
    requires
        !f.is_window_focused,
    ensures
        !f.cursor_visible(),
{
}

/// The next redraw of a blinking caret falls on the first blink boundary
/// after `now`: a whole number of half-cycles after `updated_at`, later than
/// `now`, and no more than one half-cycle later.
pub proof fn redraw_on_next_boundary(updated_at: u64, now: u64)
    requires
        updated_at <= now,
    ensures
        ({
            let next = now + millis_to_boundary(elapsed_ms(updated_at, now));
            &&& (next - updated_at) % CURSOR_BLINK_INTERVAL_MILLIS as int == 0
            &&& now < next <= now + CURSOR_BLINK_INTERVAL_MILLIS
        }),
{
    let e = (now - updated_at) as int;
    let n = CURSOR_BLINK_INTERVAL_MILLIS as int;
    assert(e - e % n + n == n * (e / n + 1)) by (nonlinear_arith)
        requires
            n == 500,
            e >= 0,
    ;
    assert((n * (e / n + 1)) % n == 0) by (nonlinear_arith)
        requires
            n == 500,
            e >= 0,
    ;
}

} // verus!
