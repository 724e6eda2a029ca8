//! Frame timing: plain millisecond timestamps supplied by the host loop.
//!
//! The host measures wall-clock time and hands each new timestamp in; the
//! core only keeps and differences the values, so the bookkeeping is exact.

use vstd::prelude::*;

verus! {

/// The timing bookkeeping of the host loop, in milliseconds of a monotonic
/// clock supplied by the host.
#[derive(Clone, Copy, Debug, PartialEq, Eq, Structural)]
pub struct TimingData {
    /// How long the last frame took.
    pub last_frame_duration: u64,
    /// When the last frame ended.
    pub last_frame_time: u64,
    /// When the timing started.
    pub start: u64,
}

impl TimingData {
    /// Fresh timing starting at the given instant.
    pub fn new(now: u64) -> (t: TimingData)
        ensures
            t.last_frame_duration == 0,
            t.last_frame_time == now,
            t.start == now,
    {
        TimingData { last_frame_duration: 0, last_frame_time: now, start: now }
    }

    /// Ends the current frame at the given instant, which must not lie before
    /// the previous frame's end (the host clock is monotonic).
    pub fn update(&mut self, now: u64)
        requires
            now >= old(self).last_frame_time,
        ensures
            final(self).last_frame_duration == now - old(self).last_frame_time,
            final(self).last_frame_time == now,
            final(self).start == old(self).start,
    {
        self.last_frame_duration = now - self.last_frame_time;
        self.last_frame_time = now;
    }

    /// How long the last completed frame took.
    pub fn get_last_frame_duration(&self) -> (r: u64)
        ensures
            r == self.last_frame_duration,
    {
        self.last_frame_duration
    }

    /// How much time has passed since the timing started, up to the given
    /// instant.
    pub fn get_from_start(&self, now: u64) -> (r: u64)
        requires
            now >= self.start,
        ensures
            r == now - self.start,
    {
        now - self.start
    }
}

} // verus!
