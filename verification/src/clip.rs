use vstd::prelude::*;

verus! {

/// A playable sequence: an inclusive range `first..=last` of frame indices
/// into the sprite-sheet grid, a table of per-frame durations addressed by
/// absolute frame index, and a loop flag. Immutable once constructed and
/// shareable read-only across entities.
///
/// The duration table need not cover the whole range: a frame the table
/// misses is a deliberate authoring pattern, handled at advance time (the
/// countdown is simply not reset on entering such a frame), not a
/// construction error.
pub struct AnimationClip {
    first: usize,
    last: usize,
    frame_durations: Vec<i64>,
    looped: bool,
}

impl AnimationClip {
    /// First frame index of the range.
    pub closed spec fn first(&self) -> int {
        self.first as int
    }

    /// Last frame index of the range.
    pub closed spec fn last(&self) -> int {
        self.last as int
    }

    /// Whether advancing past `last` wraps to `first` (true) or holds at
    /// `last` indefinitely (false).
    pub closed spec fn looped(&self) -> bool {
        self.looped
    }

    /// The per-frame duration table, addressed by absolute frame index.
    pub closed spec fn durations(&self) -> Seq<i64> {
        self.frame_durations@
    }

    /// Well-formedness: an ordered range, and every duration the table does
    /// hold is positive.
    pub open spec fn wf(&self) -> bool {
        &&& self.first() <= self.last()
        &&& forall|i: int| 0 <= i < self.durations().len() ==> self.durations()[i] > 0
    }

    /// How many frames the range spans.
    pub open spec fn frame_count(&self) -> int {
        self.last() - self.first() + 1
    }

    /// The table entry for frame `i`: `Some` where the table reaches `i`,
    /// `None` for a frame authored without a duration.
    pub open spec fn duration_spec(&self, i: int) -> Option<i64> {
        if 0 <= i < self.durations().len() {
            Some(self.durations()[i])
        } else {
            None
        }
    }

    /// The frame shown after a transition away from `current`: the next
    /// index in the range, except that from `last` a looping clip wraps to
    /// `first` and a non-looping clip stays at `last`.
    pub open spec fn next_index_spec(&self, current: int) -> int {
        if current == self.last() {
            if self.looped() {
                self.first()
            } else {
                current
            }
        } else {
            current + 1
        }
    }

    /// Builds a clip. The range must be ordered and every duration in the
    /// table positive; the table may stop short of `last` (or reach past
    /// it), and construction does not fail.
    pub fn new(first: usize, last: usize, frame_durations: Vec<i64>, looped: bool) -> (c:
        AnimationClip)
        requires
            first <= last,
            forall|i: int| 0 <= i < frame_durations@.len() ==> frame_durations@[i] > 0,
        ensures
            c.wf(),
            c.first() == first,
            c.last() == last,
            c.looped() == looped,
            c.durations() == frame_durations@,
    {
        AnimationClip { first, last, frame_durations, looped }
    }

    /// First frame index of the range.
    pub fn first_frame(&self) -> (r: usize)
        ensures
            r as int == self.first(),
    {
        self.first
    }

    /// Last frame index of the range.
    pub fn last_frame(&self) -> (r: usize)
        ensures
            r as int == self.last(),
    {
        self.last
    }

    /// Whether the clip loops.
    pub fn is_looped(&self) -> (r: bool)
        ensures
            r == self.looped(),
    {
        self.looped
    }

    /// The table entry for frame `i`, or `None` where the table stops short.
    pub fn duration_at(&self, i: usize) -> (r: Option<i64>)
        ensures
            r == self.duration_spec(i as int),
    {
        if i < self.frame_durations.len() {
            Some(self.frame_durations[i])
        } else {
            None
        }
    }
}

} // verus!
