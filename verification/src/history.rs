use vstd::prelude::*;
use crate::sample::Sample;

verus! {

/// A run of `count` samples that are all zero.
pub open spec fn silence<T: Sample>(count: nat) -> Seq<T> {
    Seq::new(count, |i: int| T::zero())
}

/// The most recent samples of one channel.
///
/// New samples are added at the end and old ones leave at the front, so that
/// a filter can reach back from the newest sample. The line is made with room
/// for a fixed number of samples and never allocates after that. Its view is
/// the run of samples that it holds, oldest first.
pub struct DelayLine<T> {
    data: Vec<T>,
    filled: usize,
}

impl<T> View for DelayLine<T> {
    type V = Seq<T>;

    closed spec fn view(&self) -> Seq<T> {
        self.data@.take(self.filled as int)
    }
}

impl<T: Sample> DelayLine<T> {
    /// Whether the line is in order: it holds no more samples than it has room for.
    pub closed spec fn wf(&self) -> bool {
        self.filled <= self.data@.len()
    }

    /// The number of samples that the line has room for.
    pub closed spec fn room(&self) -> nat {
        self.data@.len()
    }

    /// A line of `filled` zero samples with room for `spare` more.
    pub fn new(filled: usize, spare: usize) -> (line: Self)
        requires
            filled + spare <= usize::MAX,
        ensures
            line.wf(),
            line@ == silence::<T>(filled as nat),
            line.room() == filled + spare,
    {
        let size = filled + spare;
        let mut data: Vec<T> = Vec::with_capacity(size);
        let mut i: usize = 0;
        while i < size
            invariant
                i <= size,
                data@.len() == i,
                forall|j: int| 0 <= j < i ==> data@[j] == T::zero(),
            decreases size - i,
        {
            data.push(T::zero());
            i += 1;
        }
        let line = DelayLine { data, filled };
        assert(line@ =~= silence::<T>(filled as nat));
        line
    }

    /// The number of samples in the line.
    pub fn len(&self) -> (count: usize)
        requires
            self.wf(),
        ensures
            count == self@.len(),
    {
        self.filled
    }

    /// The samples in the line, oldest first.
    pub fn samples(&self) -> (run: &[T])
        requires
            self.wf(),
        ensures
            run@ == self@,
    {
        vstd::slice::slice_subrange(self.data.as_slice(), 0, self.filled)
    }

    /// Copy the first `count` samples of `input` to the end of the line.
    pub fn append(&mut self, input: &[T], count: usize)
        requires
            old(self).wf(),
            count <= input@.len(),
            old(self)@.len() + count <= old(self).room(),
        ensures
            final(self).wf(),
            final(self).room() == old(self).room(),
            final(self)@ == old(self)@ + input@.take(count as int),
    {
        let start = self.filled;
        let size = self.data.len();
        let mut i: usize = 0;
        while i < count
            invariant
                i <= count,
                count <= input@.len(),
                start + count <= size,
                self.data@.len() == size,
                self.data@.len() == old(self).data@.len(),
                self.filled == start,
                start == old(self).filled,
                forall|j: int| 0 <= j < start ==> self.data@[j] == old(self).data@[j],
                forall|j: int| start <= j < start + i ==> self.data@[j] == input@[j - start],
            decreases count - i,
        {
            self.data[start + i] = input[i];
            i += 1;
        }
        self.filled = start + count;
        assert(self@ =~= old(self)@ + input@.take(count as int));
    }

    /// Add `count` zero samples to the end of the line.
    pub fn append_silence(&mut self, count: usize)
        requires
            old(self).wf(),
            old(self)@.len() + count <= old(self).room(),
        ensures
            final(self).wf(),
            final(self).room() == old(self).room(),
            final(self)@ == old(self)@ + silence::<T>(count as nat),
    {
        let start = self.filled;
        let size = self.data.len();
        let mut i: usize = 0;
        while i < count
            invariant
                i <= count,
                start + count <= size,
                self.data@.len() == size,
                self.data@.len() == old(self).data@.len(),
                self.filled == start,
                start == old(self).filled,
                forall|j: int| 0 <= j < start ==> self.data@[j] == old(self).data@[j],
                forall|j: int| start <= j < start + i ==> self.data@[j] == T::zero(),
            decreases count - i,
        {
            self.data[start + i] = T::zero();
            i += 1;
        }
        self.filled = start + count;
        assert(self@ =~= old(self)@ + silence::<T>(count as nat));
    }

    /// Set every sample in the line to zero.
    pub fn clear(&mut self)
        requires
            old(self).wf(),
        ensures
            final(self).wf(),
            final(self).room() == old(self).room(),
            final(self)@ == silence::<T>(old(self)@.len()),
    {
        let count = self.filled;
        let mut i: usize = 0;
        while i < count
            invariant
                i <= count,
                count == self.filled,
                self.filled == old(self).filled,
                self.filled <= self.data@.len(),
                self.data@.len() == old(self).data@.len(),
                forall|j: int| 0 <= j < i ==> self.data@[j] == T::zero(),
            decreases count - i,
        {
            self.data[i] = T::zero();
            i += 1;
        }
        assert(self@ =~= silence::<T>(old(self)@.len()));
    }

    /// Drop the `count` oldest samples: those that stay move to the front.
    pub fn discard(&mut self, count: usize)
        requires
            old(self).wf(),
            count <= old(self)@.len(),
        ensures
            final(self).wf(),
            final(self).room() == old(self).room(),
            final(self)@ == old(self)@.skip(count as int),
    {
        let kept = self.filled - count;
        let mut i: usize = 0;
        while i < kept
            invariant
                i <= kept,
                kept + count == self.filled,
                self.filled == old(self).filled,
                self.filled <= self.data@.len(),
                self.data@.len() == old(self).data@.len(),
                forall|j: int| 0 <= j < i ==> self.data@[j] == old(self).data@[j + count],
                forall|j: int| i <= j < self.data@.len() ==> self.data@[j] == old(self).data@[j],
            decreases kept - i,
        {
            self.data[i] = self.data[i + count];
            i += 1;
        }
        self.filled = kept;
        assert(self@ =~= old(self)@.skip(count as int));
    }
}

} // verus!
