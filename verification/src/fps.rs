//! The frame-rate window of the tick: frames are counted, and each time the
//! window has lasted longer than the update period the rate is taken and the
//! window starts anew.
//!
//! Time is in whole milliseconds and the rate in thousandths of a frame per
//! second, so that every value is an integer.

use vstd::prelude::*;

verus! {

/// The update period, in milliseconds: a measurement window closes at the
/// first tick at which it has lasted longer than this.
pub const FPS_UPDATE_PERIOD_MS: u64 = 2000;

/// The rate of one frame per second, in the unit of `FpsState::fps_milli`.
pub const MILLI_FPS_PER_FPS: u64 = 1000;

/// The state of the frame-rate measurement.
#[derive(Debug, Clone, Copy, PartialEq, Eq, Structural)]
pub struct FpsState {
    /// The rate taken when the last window closed, in thousandths of a
    /// frame per second; 0 before the first window has closed.
    pub fps_milli: u64,
    /// When the running window started, in milliseconds; 0 before the
    /// first tick.
    pub start_time: u64,
    /// The frames counted in the running window.
    pub frame_count: u32,
}

/// The rate of `frames` frames in `elapsed` milliseconds, in thousandths of
/// a frame per second, rounded down.
pub open spec fn rate_milli(frames: int, elapsed: int) -> int
    recommends
        elapsed > 0,
{
    frames * 1000 * 1000 / elapsed
}

/// Whether a tick at time `now` closes the running window: a window has
/// been started, and has lasted longer than the update period. A window
/// that has lasted for exactly the period stays open.
pub open spec fn window_closes(state: FpsState, now: u64) -> bool {
    state.start_time != 0 && now - state.start_time > FPS_UPDATE_PERIOD_MS
}

/// The state after a tick at time `now`.
///
/// The first tick starts a window and counts nothing; every later tick
/// counts one frame. A tick at which the window has lasted longer than the
/// update period closes it: the rate is taken over the whole window, and a
/// new window starts at `now` with no frame counted.
pub open spec fn tick_spec(state: FpsState, now: u64) -> FpsState {
    let first = state.start_time == 0;
    let start: int = if first {
        now as int
    } else {
        state.start_time as int
    };
    let frames: int = if first {
        0
    } else {
        state.frame_count + 1
    };
    let elapsed = now - start;
    if window_closes(state, now) {
        FpsState { fps_milli: rate_milli(frames, elapsed) as u64, start_time: now, frame_count: 0 }
    } else {
        FpsState {
            fps_milli: state.fps_milli,
            start_time: start as u64,
            frame_count: frames as u32,
        }
    }
}

impl FpsState {
    /// The state before the first tick.
    pub fn new() -> (state: Self)
        ensures
            state == (FpsState { fps_milli: 0, start_time: 0, frame_count: 0 }),
    {
        FpsState { fps_milli: 0, start_time: 0, frame_count: 0 }
    }

    /// Tells whether a tick at time `now` would close the running window.
    pub fn closes_window(&self, now: u64) -> (closes: bool)
        ensures
            closes == window_closes(*self, now),
    {
        self.start_time != 0 && now >= self.start_time && now - self.start_time
            > FPS_UPDATE_PERIOD_MS
    }

    /// Takes a tick at time `now`, in milliseconds, and returns the rate as
    /// it stands afterwards. The frame counter must have room for the frame.
    pub fn tick(&mut self, now: u64) -> (fps_milli: u64)
        requires
            old(self).start_time != 0 ==> old(self).frame_count < u32::MAX,
        ensures
            *final(self) == tick_spec(*old(self), now),
            fps_milli == final(self).fps_milli,
    {
        let closes = self.closes_window(now);
        if self.start_time == 0 {
            self.start_time = now;
            self.frame_count = 0;
        } else {
            self.frame_count += 1;
        }
        if closes {
            let elapsed: u64 = now - self.start_time;
            let frames: u64 = self.frame_count as u64;
            let unit: u64 = MILLI_FPS_PER_FPS * MILLI_FPS_PER_FPS;
            assert(frames * unit == frames * 1000 * 1000 && frames * unit <= 0xffff_ffff * unit)
                by (nonlinear_arith)
                requires
                    unit == 1000 * 1000,
                    frames <= 0xffff_ffff,
            ;
            let scaled: u64 = frames * unit;
            self.fps_milli = scaled / elapsed;
            self.start_time = now;
            self.frame_count = 0;
        }
        self.fps_milli
    }
}

} // verus!
