use vstd::prelude::*;

use crate::clip::AnimationClip;
use crate::error::AnimError;
use crate::timer::PlaybackTimer;

verus! {

/// The frame shown after `k` transitions of `clip` starting from `start`.
pub open spec fn iterated_next(clip: AnimationClip, start: int, k: nat) -> int
    decreases k,
{
    if k == 0 {
        start
    } else {
        clip.next_index_spec(iterated_next(clip, start, (k - 1) as nat))
    }
}

/// Advances the animation by one tick of `elapsed` time units.
///
/// The countdown is ticked first; a negative `elapsed` is rejected there and
/// nothing changes. If the tick does not finish the countdown, the visible
/// index is returned unchanged and the countdown is not reset. Otherwise the
/// index moves one step — past `last` a looping clip wraps to `first`, a
/// non-looping clip freezes at `last` — and the countdown is reset to the
/// entered frame's duration where the table holds one. Where the table stops
/// short of the entered frame, the countdown is deliberately left where the
/// tick put it (at or below zero), so every later tick that moves time keeps
/// reporting finished and the clip advances one frame per tick until it
/// escapes the gap.
///
/// At most one frame transition happens per call, however large `elapsed`
/// is: an oversized tick is not compensated with extra transitions.
pub fn advance(
    elapsed: i64,
    clip: &AnimationClip,
    timer: &mut PlaybackTimer,
    current_index: usize,
) -> (r: Result<usize, AnimError>)
    requires
        clip.wf(),
        clip.first() <= current_index as int <= clip.last(),
        i64::MIN <= old(timer).remaining() - elapsed,
    ensures
        elapsed < 0 ==> (r == Err::<usize, AnimError>(AnimError::InvalidInput)
            && *final(timer) == *old(timer)),
        elapsed >= 0 && !old(timer).tick_finishes(elapsed as int) ==> (r == Ok::<usize, AnimError>(
            current_index,
        )
            && final(timer).remaining() == old(timer).remaining() - elapsed
            && !final(timer).finished()),
        elapsed >= 0 && old(timer).tick_finishes(elapsed as int) ==> ((r matches Ok(idx)
            && idx as int == clip.next_index_spec(current_index as int))
            && match clip.duration_spec(clip.next_index_spec(current_index as int)) {
                Some(d) => final(timer).remaining() == d && !final(timer).finished(),
                None => final(timer).remaining() == old(timer).remaining() - elapsed
                    && final(timer).finished(),
            }),
        elapsed == 0 ==> (r == Ok::<usize, AnimError>(current_index)
            && final(timer).remaining() == old(timer).remaining()
            && !final(timer).finished()),
        r matches Ok(idx) ==> clip.first() <= idx as int <= clip.last(),
{
    if let Err(e) = timer.tick(elapsed) {
        return Err(e);
    }
    if !timer.just_finished() {
        return Ok(current_index);
    }
    let next_index = if current_index == clip.last_frame() {
        if clip.is_looped() {
            clip.first_frame()
        } else {
            current_index
        }
    } else {
        current_index + 1
    };
    if let Some(new_duration) = clip.duration_at(next_index) {
        let _ = timer.reset_to(new_duration);
    }
    Ok(next_index)
}

/// A transition never leaves the clip's range: from any frame in
/// `first..=last`, the next frame is again in `first..=last`.
pub proof fn lemma_next_in_range(clip: AnimationClip, current: int)
    requires
        clip.wf(),
        clip.first() <= current <= clip.last(),
    ensures
        clip.first() <= clip.next_index_spec(current) <= clip.last(),
{
}

/// A looping clip cycles: starting from `first`, the first `frame_count()`
/// transitions visit every frame of the range exactly once in increasing
/// order (the `k`-th transition lands on `first + k`), and the
/// `frame_count()`-th returns to `first`.
pub proof fn lemma_looped_cycle(clip: AnimationClip, k: nat)
    requires
        clip.wf(),
        clip.looped(),
        k <= clip.frame_count(),
    ensures
        k < clip.frame_count() ==> iterated_next(clip, clip.first(), k) == clip.first() + k,
        k == clip.frame_count() ==> iterated_next(clip, clip.first(), k) == clip.first(),
    decreases k,
{
    if k > 0 {
        lemma_looped_cycle(clip, (k - 1) as nat);
    }
}

/// A non-looping clip freezes at `last`: once the visible index is there, no
/// number of further transitions moves it.
pub proof fn lemma_unlooped_frozen(clip: AnimationClip, k: nat)
    requires
        clip.wf(),
        !clip.looped(),
    ensures
        iterated_next(clip, clip.last(), k) == clip.last(),
    decreases k,
{
    if k > 0 {
        lemma_unlooped_frozen(clip, (k - 1) as nat);
    }
}

} // verus!
