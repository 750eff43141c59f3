//! Time between frames and the frame rate derived from it.
//!
//! Instants are nanoseconds on a monotonic clock, counted from the origin
//! that the embedding program picks when the application starts: a new
//! clock stands at that origin.

use vstd::prelude::*;

verus! {

/// Nanoseconds in one second.
pub const NANOS_PER_SECOND: u64 = 1_000_000_000;

/// Billionths of a frame per second at one frame per nanosecond: divided by
/// a frame interval in nanoseconds, it gives the rate in billionths of a
/// frame per second.
pub const FPS_NANO_SCALE: u64 = 1_000_000_000_000_000_000;

/// Tracks the instant of the last frame, the interval before it and the
/// rate that the interval gives.
#[derive(Clone, Copy, Debug, PartialEq, Eq, Structural)]
pub struct FrameClock {
    /// The last recorded instant; the origin before the first tick.
    pub last_instant: u64,
    /// Whether a frame has been recorded.
    pub has_ticked: bool,
    /// Nanoseconds between the last two recorded instants.
    pub delta_nanos: u64,
    /// Frame rate over that interval, in billionths of a frame per second;
    /// zero before the second frame.
    pub fps_nano: u64,
}

impl FrameClock {
    /// Nanoseconds from the last recorded instant to `now`. An interval
    /// shorter than the clock's resolution, or a `now` that does not lie after
    /// the last instant, counts as one nanosecond.
    pub open spec fn interval_to(self, now: u64) -> u64 {
        if now > self.last_instant {
            (now - self.last_instant) as u64
        } else {
            1
        }
    }

    /// The clock after a tick at `now`.
    pub open spec fn after_tick(self, now: u64) -> FrameClock {
        FrameClock {
            last_instant: now,
            has_ticked: true,
            delta_nanos: self.interval_to(now),
            fps_nano: if self.has_ticked {
                (FPS_NANO_SCALE / self.interval_to(now)) as u64
            } else {
                0
            },
        }
    }

    /// A clock at the origin with zero-valued readings.
    pub fn new() -> (r: FrameClock)
        ensures
            r.last_instant == 0,
            !r.has_ticked,
            r.delta_nanos == 0,
            r.fps_nano == 0,
    {
        FrameClock { last_instant: 0, has_ticked: false, delta_nanos: 0, fps_nano: 0 }
    }

    /// Records a frame at `now`: the interval since the previous frame (since
    /// the origin, for the first frame) becomes the delta time, and is always
    /// positive. Its reciprocal becomes the frame rate, except on the first
    /// tick, where the rate stays the sentinel zero.
    pub fn tick(&mut self, now: u64)
        ensures
            *final(self) == old(self).after_tick(now),
            final(self).last_instant == now,
            final(self).has_ticked,
            final(self).delta_nanos > 0,
            old(self).last_instant < now
                ==> final(self).delta_nanos == now - old(self).last_instant,
            now <= old(self).last_instant ==> final(self).delta_nanos == 1,
            !old(self).has_ticked ==> final(self).fps_nano == 0,
            old(self).has_ticked
                ==> final(self).fps_nano == FPS_NANO_SCALE / final(self).delta_nanos,
    {
        let delta: u64 = if now > self.last_instant {
            now - self.last_instant
        } else {
            1
        };
        let fps: u64 = if self.has_ticked {
            FPS_NANO_SCALE / delta
        } else {
            0
        };
        self.last_instant = now;
        self.has_ticked = true;
        self.delta_nanos = delta;
        self.fps_nano = fps;
    }

    /// Time between the last two frames, in nanoseconds.
    pub fn delta_nanos(&self) -> (r: u64)
        ensures
            r == self.delta_nanos,
    {
        self.delta_nanos
    }

    /// Frame rate over the last interval, in billionths of a frame per second.
    pub fn fps_nano(&self) -> (r: u64)
        ensures
            r == self.fps_nano,
    {
        self.fps_nano
    }
}

/// Two ticks `delta` nanoseconds apart: the second reports `delta` as the
/// delta time and its reciprocal as the frame rate. The first, with no
/// earlier frame, reports the time since the last instant (the origin) and
/// the sentinel rate zero, without dividing.
pub proof fn lemma_consecutive_ticks(clock: FrameClock, start: u64, delta: u64)
    requires
        !clock.has_ticked,
        clock.last_instant < start,
        0 < delta,
        start + delta <= u64::MAX,
    ensures
        clock.after_tick(start).delta_nanos == start - clock.last_instant,
        clock.after_tick(start).delta_nanos > 0,
        clock.after_tick(start).fps_nano == 0,
        clock.after_tick(start).after_tick((start + delta) as u64).delta_nanos == delta,
        clock.after_tick(start).after_tick((start + delta) as u64).fps_nano == FPS_NANO_SCALE
            / delta,
{
}

} // verus!
