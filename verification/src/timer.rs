use vstd::prelude::*;

use crate::error::AnimError;

verus! {

/// A repeating countdown toward the next frame transition.
///
/// `remaining` holds the time units left until the current frame should give
/// way. `tick` subtracts elapsed time from it without clamping, so it may
/// rest at or below zero while no new duration is installed; `reset_to`
/// installs the next frame's full duration. `finished` records whether the
/// most recent `tick` moved time forward and left the countdown at or below
/// zero — the signal that a frame transition is due.
pub struct PlaybackTimer {
    remaining: i64,
    finished: bool,
}

impl PlaybackTimer {
    /// Time units left until the current frame should give way; negative
    /// once the countdown has overshot without being reset.
    pub closed spec fn remaining(&self) -> int {
        self.remaining as int
    }

    /// Whether the most recent `tick` left the countdown due for a frame
    /// transition.
    pub closed spec fn finished(&self) -> bool {
        self.finished
    }

    /// What `tick(elapsed)` reports as finished: the tick moved time forward
    /// and the countdown ended at or below zero. A tick of zero elapsed time
    /// reports nothing, however low the countdown already is.
    pub open spec fn tick_finishes(&self, elapsed: int) -> bool {
        elapsed > 0 && self.remaining() - elapsed <= 0
    }

    /// A fresh countdown holding the starting frame's full duration, which
    /// must be positive.
    pub fn new(initial_duration: i64) -> (r: Result<PlaybackTimer, AnimError>)
        ensures
            initial_duration > 0 ==> (r matches Ok(t) && t.remaining() == initial_duration
                && !t.finished()),
            initial_duration <= 0 ==> r == Err::<PlaybackTimer, AnimError>(AnimError::InvalidInput),
    {
        if initial_duration > 0 {
            Ok(PlaybackTimer { remaining: initial_duration, finished: false })
        } else {
            Err(AnimError::InvalidInput)
        }
    }

    /// Counts `elapsed` time units down. A negative `elapsed` is a caller
    /// bug: it is rejected and nothing changes. The countdown is not clamped
    /// at zero.
    pub fn tick(&mut self, elapsed: i64) -> (r: Result<(), AnimError>)
        requires
            i64::MIN <= old(self).remaining() - elapsed,
        ensures
            elapsed < 0 ==> (r == Err::<(), AnimError>(AnimError::InvalidInput)
                && *final(self) == *old(self)),
            elapsed >= 0 ==> (r == Ok::<(), AnimError>(())
                && final(self).remaining() == old(self).remaining() - elapsed
                && final(self).finished() == old(self).tick_finishes(elapsed as int)),
    {
        if elapsed < 0 {
            return Err(AnimError::InvalidInput);
        }
        self.remaining = self.remaining - elapsed;
        self.finished = elapsed > 0 && self.remaining <= 0;
        Ok(())
    }

    /// Whether the most recent `tick` left the countdown due for a frame
    /// transition.
    pub fn just_finished(&self) -> (r: bool)
        ensures
            r == self.finished(),
    {
        self.finished
    }

    /// Installs the next frame's full duration, which must be positive; no
    /// overshoot from the previous frame is carried over. A non-positive
    /// duration is a configuration error: it is rejected and nothing changes.
    pub fn reset_to(&mut self, new_duration: i64) -> (r: Result<(), AnimError>)
        ensures
            new_duration <= 0 ==> (r == Err::<(), AnimError>(AnimError::InvalidInput)
                && *final(self) == *old(self)),
            new_duration > 0 ==> (r == Ok::<(), AnimError>(())
                && final(self).remaining() == new_duration
                && !final(self).finished()),
    {
        if new_duration <= 0 {
            return Err(AnimError::InvalidInput);
        }
        self.remaining = new_duration;
        self.finished = false;
        Ok(())
    }

    /// The countdown's current value, for callers outside the proof.
    pub fn remaining_units(&self) -> (r: i64)
        ensures
            r as int == self.remaining(),
    {
        self.remaining
    }
}

} // verus!
