//! Frame pacing.
//!
//! The runner paces itself by the refresh rate that the core reports.  The
//! rate is known here by an opaque key (the caller passes the bit pattern of
//! the reported number), which is all that "has the rate changed" needs; the
//! caller works out the frame period of a new rate.  All times are in
//! microseconds on the caller's monotonic clock.

use vstd::prelude::*;

verus! {

/// Frame period before the core has reported a refresh rate, in
/// microseconds.
pub const INITIAL_FRAME_TIME: u64 = 16_000;

/// The pacing state of the runner.
#[derive(Clone, Copy, Debug, PartialEq, Eq, Structural)]
pub struct FramePacer {
    /// Target frame period.
    pub frame_time: u64,
    /// Key of the refresh rate that `frame_time` was worked out for.
    pub last_refresh_rate: u64,
    /// The deadline that ends the current frame.
    pub next_lcd_refresh: u64,
}

impl FramePacer {
    /// The pacing state of a runner that starts at `now`: the first frame is
    /// due at once, and no rate has been seen.
    pub fn new(now: u64) -> (pacer: FramePacer)
        ensures
            pacer == (FramePacer {
                frame_time: INITIAL_FRAME_TIME,
                last_refresh_rate: 0,
                next_lcd_refresh: now,
            }),
    {
        FramePacer { frame_time: INITIAL_FRAME_TIME, last_refresh_rate: 0, next_lcd_refresh: now }
    }

    /// Whether `rate` differs from the rate last recorded, so that the frame
    /// period has to be worked out anew.
    pub fn refresh_rate_changed(&self, rate: u64) -> (changed: bool)
        ensures
            changed == (rate != self.last_refresh_rate),
    {
        rate != self.last_refresh_rate
    }

    /// Records `rate` with `frame_time`, the period that belongs to it.
    pub fn set_refresh_rate(&mut self, rate: u64, frame_time: u64)
        ensures
            *final(self) == (FramePacer {
                frame_time: frame_time,
                last_refresh_rate: rate,
                ..*old(self)
            }),
    {
        self.last_refresh_rate = rate;
        self.frame_time = frame_time;
    }

    /// Takes note of the rate that the core reports after a frame.  A rate
    /// that differs from the one last recorded is recorded with
    /// `frame_time`; the same rate again changes nothing.  Returns whether
    /// the period was replaced.
    pub fn observe_refresh_rate(&mut self, rate: u64, frame_time: u64) -> (changed: bool)
        ensures
            changed == (rate != old(self).last_refresh_rate),
            *final(self) == old(self).observed(rate, frame_time),
    {
        if self.refresh_rate_changed(rate) {
            self.set_refresh_rate(rate, frame_time);
            true
        } else {
            false
        }
    }

    /// The pacing state after `rate` was observed.
    pub open spec fn observed(self, rate: u64, frame_time: u64) -> FramePacer {
        if rate != self.last_refresh_rate {
            FramePacer { frame_time: frame_time, last_refresh_rate: rate, ..self }
        } else {
            self
        }
    }

    /// Whether the deadline of the current frame is reached at `now`.
    pub fn frame_due(&self, now: u64) -> (due: bool)
        ensures
            due == (self.next_lcd_refresh <= now),
    {
        self.next_lcd_refresh <= now
    }

    /// Whether the next deadline still fits the clock.
    pub fn can_schedule(&self) -> (fits: bool)
        ensures
            fits == (self.next_lcd_refresh + self.frame_time <= u64::MAX),
    {
        self.frame_time <= u64::MAX - self.next_lcd_refresh
    }

    /// Moves the deadline on by one frame period.
    pub fn schedule_next(&mut self)
        requires
            old(self).next_lcd_refresh + old(self).frame_time <= u64::MAX,
        ensures
            *final(self) == (FramePacer {
                next_lcd_refresh: (old(self).next_lcd_refresh + old(self).frame_time) as u64,
                ..*old(self)
            }),
    {
        self.next_lcd_refresh = self.next_lcd_refresh + self.frame_time;
    }
}

/// A rate that is reported twice in a row replaces the period the first
/// time only.
pub proof fn lemma_same_rate_keeps_period(pacer: FramePacer, rate: u64, first: u64, second: u64)
    ensures
        pacer.observed(rate, first).observed(rate, second) == pacer.observed(rate, first),
{
}

/// After a rate that differs from the recorded one, the period is the one
/// that came with it.
pub proof fn lemma_new_rate_replaces_period(pacer: FramePacer, rate: u64, frame_time: u64)
    requires
        rate != pacer.last_refresh_rate,
    ensures
        pacer.observed(rate, frame_time).frame_time == frame_time,
        pacer.observed(rate, frame_time).last_refresh_rate == rate,
        pacer.observed(rate, frame_time).next_lcd_refresh == pacer.next_lcd_refresh,
{
}

} // verus!
