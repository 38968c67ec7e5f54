use vstd::prelude::*;
use crate::sample::Sample;

verus! {

/// Where the next output frame lies in the input, and the ratio it is taken at.
///
/// The position has a whole part, `index`, which counts input samples in the
/// history of a resampler, and a `fraction` of a sample past it. Each frame
/// moves the position on by one over the current ratio. While a ramp runs,
/// each frame also adds `step` to the ratio, and the last frame of the ramp
/// sets the ratio to `target`.
#[derive(Debug, Clone, Copy)]
pub struct Cursor<T> {
    /// The input sample at or before the next frame, as a position in the history.
    pub index: usize,
    /// How far the next frame lies past that sample, in samples.
    pub fraction: T,
    /// The resampling ratio that the next frame is taken at.
    pub ratio: T,
    /// The resampling ratio that was asked for last.
    pub target: T,
    /// What a ramp adds to the ratio with each frame.
    pub step: T,
    /// The number of frames that a ramp has yet to run; zero when none is active.
    pub remaining: usize,
}

/// The sum of two counts, held down to the largest `usize`.
pub open spec fn saturated_sum(a: usize, b: usize) -> usize {
    if a + b > usize::MAX {
        usize::MAX
    } else {
        (a + b) as usize
    }
}

impl<T: Sample> Cursor<T> {
    /// The cursor of a resampler that runs steadily at `ratio` and has its
    /// next frame exactly on the sample `index`.
    pub open spec fn steady_spec(index: usize, ratio: T) -> Self {
        Cursor { index, fraction: T::zero(), ratio, target: ratio, step: T::zero(), remaining: 0 }
    }

    /// The input sample that has to have arrived before the next frame is due.
    ///
    /// A frame is due once the input has passed the point halfway between the
    /// frame and the one after it, which lies half a step past the frame:
    /// `index + floor(fraction + 1 / (ratio + ratio))`.
    pub open spec fn reach_spec(self) -> usize {
        saturated_sum(
            self.index,
            self.fraction.plus(T::one().over(self.ratio.plus(self.ratio))).floor(),
        )
    }

    /// The cursor one frame on.
    ///
    /// The position moves on by `1 / ratio`: the whole part of
    /// `fraction + 1 / ratio` is added to `index`, the rest is the new
    /// `fraction`. A ramp with more than one frame to run adds `step` to the
    /// ratio, and one with a single frame to run sets the ratio to `target`.
    pub open spec fn next_spec(self) -> Self {
        let moved = self.fraction.plus(T::one().over(self.ratio));
        let whole = moved.floor();
        Cursor {
            index: saturated_sum(self.index, whole),
            fraction: moved.minus(T::coerce(whole)),
            ratio: if self.remaining > 1 {
                self.ratio.plus(self.step)
            } else if self.remaining == 1 {
                self.target
            } else {
                self.ratio
            },
            target: self.target,
            step: self.step,
            remaining: if self.remaining > 0 {
                (self.remaining - 1) as usize
            } else {
                0
            },
        }
    }

    /// The cursor `frames` frames on.
    pub open spec fn after(self, frames: nat) -> Self
        decreases frames,
    {
        if frames == 0 {
            self
        } else {
            self.after((frames - 1) as nat).next()
        }
    }

    /// The number of frames that are due before the input sample `last` has
    /// gone by, counted from this cursor on and up to `limit` frames.
    pub open spec fn frames_within(self, last: usize, limit: nat) -> nat
        decreases limit,
    {
        if limit == 0 || self.reach() > last {
            0
        } else {
            1 + self.next().frames_within(last, (limit - 1) as nat)
        }
    }

    /// The cursor at the start of the next chunk, when `consumed` samples
    /// have left the history: the position moves back by `consumed` samples
    /// but not below zero, and a ramp ends with the ratio at `target`.
    pub open spec fn rebased_spec(self, consumed: usize) -> Self {
        Cursor {
            index: if self.index < consumed {
                0
            } else {
                (self.index - consumed) as usize
            },
            fraction: self.fraction,
            ratio: self.target,
            target: self.target,
            step: T::zero(),
            remaining: 0,
        }
    }

    /// The cursor that turns to the ratio `new_ratio`: at once, or, where
    /// `ramp` is set and `frames` is not zero, by a ramp over the next `frames`
    /// frames, which starts from the current ratio.
    pub open spec fn turned_spec(self, new_ratio: T, ramp: bool, frames: usize) -> Self {
        if ramp && frames > 0 {
            Cursor {
                index: self.index,
                fraction: self.fraction,
                ratio: self.ratio,
                target: new_ratio,
                step: new_ratio.minus(self.ratio).over(T::coerce(frames)),
                remaining: frames,
            }
        } else {
            Cursor {
                index: self.index,
                fraction: self.fraction,
                ratio: new_ratio,
                target: new_ratio,
                step: T::zero(),
                remaining: 0,
            }
        }
    }

    /// The frames that a cursor moves on by leave the ratio alone that it
    /// is to reach, and the step of its ramp.
    pub proof fn lemma_after_keeps_target(self, frames: nat)
        ensures
            self.after(frames).target == self.target,
            self.after(frames).step == self.step,
        decreases frames,
    {
        if frames > 0 {
            self.lemma_after_keeps_target((frames - 1) as nat);
        }
    }

    /// No more frames are counted than the limit allows.
    pub proof fn lemma_frames_within_limit(self, last: usize, limit: nat)
        ensures
            self.frames_within(last, limit) <= limit,
        decreases limit,
    {
        if limit > 0 && self.reach() <= last {
            self.next().lemma_frames_within_limit(last, (limit - 1) as nat);
        }
    }

    #[verifier::when_used_as_spec(steady_spec)]
    pub fn steady(index: usize, ratio: T) -> (cursor: Self)
        ensures
            cursor == Self::steady_spec(index, ratio),
    {
        Cursor { index, fraction: T::zero(), ratio, target: ratio, step: T::zero(), remaining: 0 }
    }

    #[verifier::when_used_as_spec(reach_spec)]
    pub fn reach(self) -> (sample: usize)
        ensures
            sample == self.reach_spec(),
    {
        let ahead = self.fraction.plus(T::one().over(self.ratio.plus(self.ratio))).floor();
        self.index.saturating_add(ahead)
    }

    #[verifier::when_used_as_spec(next_spec)]
    pub fn next(self) -> (cursor: Self)
        ensures
            cursor == self.next_spec(),
    {
        let moved = self.fraction.plus(T::one().over(self.ratio));
        let whole = moved.floor();
        Cursor {
            index: self.index.saturating_add(whole),
            fraction: moved.minus(T::coerce(whole)),
            ratio: if self.remaining > 1 {
                self.ratio.plus(self.step)
            } else if self.remaining == 1 {
                self.target
            } else {
                self.ratio
            },
            target: self.target,
            step: self.step,
            remaining: if self.remaining > 0 {
                self.remaining - 1
            } else {
                0
            },
        }
    }

    /// Move the cursor on by `frames` frames.
    pub fn skip(self, frames: usize) -> (cursor: Self)
        ensures
            cursor == self.after(frames as nat),
    {
        let mut cursor = self;
        let mut done: usize = 0;
        while done < frames
            invariant
                done <= frames,
                cursor == self.after(done as nat),
            decreases frames - done,
        {
            cursor = cursor.next();
            done += 1;
        }
        cursor
    }

    /// Count the frames that are due before the input sample `last` has gone
    /// by, up to `limit` frames.
    pub fn count_frames(self, last: usize, limit: usize) -> (frames: usize)
        ensures
            frames == self.frames_within(last, limit as nat),
            frames <= limit,
    {
        let mut cursor = self;
        let mut frames: usize = 0;
        while frames < limit && cursor.reach() <= last
            invariant
                frames <= limit,
                frames + cursor.frames_within(last, (limit - frames) as nat) == self.frames_within(
                    last,
                    limit as nat,
                ),
            decreases limit - frames,
        {
            cursor = cursor.next();
            frames += 1;
        }
        frames
    }

    #[verifier::when_used_as_spec(rebased_spec)]
    pub fn rebased(self, consumed: usize) -> (cursor: Self)
        ensures
            cursor == self.rebased_spec(consumed),
    {
        Cursor {
            index: self.index.saturating_sub(consumed),
            fraction: self.fraction,
            ratio: self.target,
            target: self.target,
            step: T::zero(),
            remaining: 0,
        }
    }

    #[verifier::when_used_as_spec(turned_spec)]
    pub fn turned(self, new_ratio: T, ramp: bool, frames: usize) -> (cursor: Self)
        ensures
            cursor == self.turned_spec(new_ratio, ramp, frames),
    {
        if ramp && frames > 0 {
            Cursor {
                index: self.index,
                fraction: self.fraction,
                ratio: self.ratio,
                target: new_ratio,
                step: new_ratio.minus(self.ratio).over(T::coerce(frames)),
                remaining: frames,
            }
        } else {
            Cursor {
                index: self.index,
                fraction: self.fraction,
                ratio: new_ratio,
                target: new_ratio,
                step: T::zero(),
                remaining: 0,
            }
        }
    }
}

} // verus!
