use vstd::prelude::*;
use crate::cursor::Cursor;
use crate::error::{ResampleError, ResampleResult, ResamplerConstructionError};
use crate::history::{silence, DelayLine};
use crate::interpolation::{interpolate, interpolated, is_table, taps_of, SincInterpolationType};
use crate::resampler::Resampler;
use crate::sample::Sample;
use crate::sinc::{is_sinc_table, make_sincs};
use crate::validate::{
    buffers_fit, channel_frames, channel_lengths, first_shape_error, mask_or_all,
    update_mask_from_buffers, validate_buffers,
};
use crate::windows::WindowFunction;

verus! {

/// The number that the length of a sinc kernel has to be a multiple of.
pub const SINC_LEN_MULTIPLE: usize = 8;

/// A struct holding the parameters for sinc interpolation.
#[derive(Debug, Clone, Copy)]
pub struct SincInterpolationParameters<T> {
    /// Length of the windowed sinc interpolation filter.
    /// Higher values can allow a higher cut-off frequency leading to less high frequency roll-off
    /// at the expense of higher cpu usage. It has to be a positive multiple of
    /// [`SINC_LEN_MULTIPLE`].
    pub sinc_len: usize,
    /// Relative cutoff frequency of the sinc interpolation filter, relative to
    /// half the lower one of the input and output rates.
    pub f_cutoff: T,
    /// The number of intermediate points to use for interpolation.
    /// Higher values use more memory for storing the sinc filters.
    pub oversampling_factor: usize,
    /// Interpolation type.
    pub interpolation: SincInterpolationType,
    /// Window function to use.
    pub window: WindowFunction,
}

/// `value`, held between `low` and `high`.
pub open spec fn held(value: usize, low: usize, high: usize) -> usize {
    if value > high {
        high
    } else if value < low {
        low
    } else {
        value
    }
}

/// `a - b`, or zero where `b` is the larger one.
pub open spec fn saturated_difference(a: usize, b: usize) -> usize {
    if a < b {
        0
    } else {
        (a - b) as usize
    }
}

/// What a sinc resampler is at one moment: what it was built with, the input
/// that it remembers and the place in that input of its next output frame.
///
/// One side of the resampler takes or gives `chunk_size` frames with every
/// call. The other side is free: its frames vary from call to call and never
/// exceed `width`.
pub struct SincModel<T> {
    /// Whether the input is the side with `chunk_size` frames in every call.
    pub fixed_input: bool,
    /// The number of channels.
    pub nbr_channels: usize,
    /// The frames of the fixed side in every call.
    pub chunk_size: usize,
    /// The most frames that the free side can have in one call.
    pub width: usize,
    /// How the value of a frame is taken from the kernels around it.
    pub interpolation: SincInterpolationType,
    /// The table of kernels.
    pub sincs: Seq<Vec<T>>,
    /// The ratio that the resampler was built with.
    pub resample_ratio_original: T,
    /// How far the ratio may move from the original one, as a factor.
    pub max_relative_ratio: T,
    /// For each channel the most recent input: twice the kernel's length in samples.
    pub history: Seq<Seq<T>>,
    /// The place of the next frame and the ratio it is taken at.
    pub cursor: Cursor<T>,
}

impl<T: Sample> SincModel<T> {
    /// The length of one kernel.
    pub open spec fn sinc_len(self) -> nat {
        taps_of(self.sincs)
    }

    /// Whether the model is in order.
    pub open spec fn wf(self) -> bool {
        &&& is_table(self.sincs)
        &&& self.sinc_len() >= SINC_LEN_MULTIPLE
        &&& self.sinc_len() % (SINC_LEN_MULTIPLE as nat) == 0
        &&& 2 * self.sinc_len() + self.input_frames_max() <= usize::MAX
        &&& self.history.len() == self.nbr_channels
        &&& forall|c: int|
            0 <= c < self.nbr_channels ==> (#[trigger] self.history[c]).len() == 2
                * self.sinc_len()
    }

    /// The frames of the free side in the next call.
    ///
    /// With a fixed input these are the frames that are due before the last
    /// sample of the chunk that can be reached has gone by, `width` at most.
    /// With a fixed output they are the samples that have to arrive for the
    /// last frame of the chunk to be in reach, `width` at most.
    pub open spec fn free_frames(self) -> usize {
        if self.fixed_input {
            self.cursor.frames_within(
                (self.sinc_len() + self.chunk_size - 1) as usize,
                self.width as nat,
            ) as usize
        } else if self.chunk_size == 0 {
            0
        } else {
            let last = self.cursor.after((self.chunk_size - 1) as nat).index;
            let needed = saturated_difference(last, (self.sinc_len() - 1) as usize);
            if needed > self.width {
                self.width
            } else {
                needed
            }
        }
    }

    /// The frames that the next call reads from each channel.
    pub open spec fn input_frames_next(self) -> usize {
        if self.fixed_input {
            self.chunk_size
        } else {
            self.free_frames()
        }
    }

    /// The frames that the next call writes to each active channel.
    pub open spec fn output_frames_next(self) -> usize {
        if self.fixed_input {
            self.free_frames()
        } else {
            self.chunk_size
        }
    }

    /// The most frames that a call can read from each channel.
    pub open spec fn input_frames_max(self) -> usize {
        if self.fixed_input {
            self.chunk_size
        } else {
            self.width
        }
    }

    /// The most frames that a call can write to each channel.
    pub open spec fn output_frames_max(self) -> usize {
        if self.fixed_input {
            self.width
        } else {
            self.chunk_size
        }
    }

    /// The input that the frames of the next call are taken from, for one
    /// channel: what the resampler remembers of it, followed by the frames
    /// that the call reads from `input`.
    pub open spec fn staged(self, channel: int, input: Seq<T>) -> Seq<T> {
        self.history[channel] + input.take(self.input_frames_next() as int)
    }

    /// The last position that a frame of the next call can be taken at.
    pub open spec fn last(self) -> usize {
        (self.sinc_len() + self.input_frames_next() - 1) as usize
    }

    /// Frame `frame` of the next call for one channel, of which the call
    /// reads `input`: the signal at the place of the cursor `frame` frames
    /// on, its position held between 2 and the last one.
    pub open spec fn frame(self, channel: int, input: Seq<T>, frame: int) -> T {
        let cursor = self.cursor.after(frame as nat);
        interpolated(
            self.sincs,
            self.interpolation,
            self.staged(channel, input),
            held(cursor.index, 2, self.last()) as int,
            cursor.fraction,
        )
    }

    /// Sample `frame` of channel `channel` of the output after the next call,
    /// which reads `wave_in` under `mask` and finds `before` in the output:
    /// the frame of that number, where the channel is active and the call has
    /// such a frame, and what was there before elsewhere.
    pub open spec fn written(
        self,
        wave_in: Seq<Seq<T>>,
        mask: Seq<bool>,
        before: Seq<Seq<T>>,
        channel: int,
        frame: int,
    ) -> T {
        if mask[channel] && frame < self.output_frames_next() {
            self.frame(channel, wave_in[channel], frame)
        } else {
            before[channel][frame]
        }
    }

    /// What the resampler remembers of one channel after the next call: the
    /// end of what it remembered before, followed by the frames that the call
    /// read, which count as zero where the channel is not active.
    pub open spec fn history_after(self, channel: int, input: Seq<T>, active: bool) -> Seq<T> {
        let needed = self.input_frames_next();
        if active {
            self.staged(channel, input).skip(needed as int)
        } else {
            (self.history[channel] + silence::<T>(needed as nat)).skip(needed as int)
        }
    }

    /// The resampler after a call that reads `wave_in` under `mask`.
    ///
    /// The cursor has moved on by the frames of the call and back by the
    /// samples that it read, and a ramp has come to its end.
    pub open spec fn advanced(self, wave_in: Seq<Seq<T>>, mask: Seq<bool>) -> Self {
        SincModel {
            history: Seq::new(
                self.nbr_channels as nat,
                |c: int| self.history_after(c, wave_in[c], mask[c]),
            ),
            cursor: self.cursor.after(self.output_frames_next() as nat).rebased(
                self.input_frames_next(),
            ),
            ..self
        }
    }

    /// The resampler as it was when it was built: it remembers silence, and
    /// its next frame lies on the sample whose number is the length of a
    /// kernel, at the original ratio.
    ///
    /// The kernels of a frame at position `n` have their centre half their
    /// length after `n`, and the first sample of the input comes to lie at
    /// twice the length of a kernel. So the first frame lies half a kernel
    /// before the input: what comes out is the input, half a kernel late.
    pub open spec fn fresh(self) -> Self {
        SincModel {
            history: Seq::new(
                self.nbr_channels as nat,
                |c: int| silence::<T>(2 * self.sinc_len()),
            ),
            cursor: Cursor::steady(self.sinc_len() as usize, self.resample_ratio_original),
            ..self
        }
    }

    /// Whether the ratio may be `relative` times the original one.
    pub open spec fn admits(self, relative: T) -> bool {
        T::one().over(self.max_relative_ratio).le(relative) && relative.le(
            self.max_relative_ratio,
        )
    }

    /// The error that a change of the ratio to `relative` times the original
    /// one meets, if the resampler does not admit it.
    pub open spec fn ratio_fault(self, relative: T) -> Option<ResampleError<T>> {
        if self.admits(relative) {
            None
        } else {
            Some(
                ResampleError::RatioOutOfBounds {
                    got: relative,
                    min: T::one().over(self.max_relative_ratio),
                    max: self.max_relative_ratio,
                },
            )
        }
    }

    /// The resampler that runs steadily at the ratio of the moment: a ramp
    /// that has not begun is taken back.
    pub open spec fn settled(self) -> Self {
        SincModel { cursor: self.cursor.turned(self.cursor.ratio, false, 0), ..self }
    }

    /// The resampler after its ratio was set to `new_ratio`.
    ///
    /// A ramp starts from the ratio of the moment and runs over as many
    /// frames as the next call would write at that ratio. A ramp that was asked
    /// for before and has not begun is cancelled, and has no part in the new one.
    pub open spec fn turned(self, new_ratio: T, ramp: bool) -> Self {
        SincModel {
            cursor: self.cursor.turned(new_ratio, ramp, self.settled().output_frames_next()),
            ..self
        }
    }
}

impl<T: Sample> SincModel<T> {
    /// Whether the resampler remembers the same input of the channels `a` and `b`.
    pub open spec fn channels_agree(self, a: int, b: int) -> bool {
        self.history[a] == self.history[b]
    }

    /// A resampler that has just been built or reset remembers the same of
    /// all its channels, which is silence.
    pub proof fn law_fresh_channels_agree(self, a: int, b: int)
        requires
            0 <= a < self.nbr_channels,
            0 <= b < self.nbr_channels,
        ensures
            self.fresh().channels_agree(a, b),
    {
    }

    /// Channels are independent: two channels that have had the same input
    /// so far, and get the same input and the same mark in the mask in the
    /// next call, get the same frames from that call, and have had the same
    /// input after it.
    pub proof fn law_channels_independent(
        self,
        wave_in: Seq<Seq<T>>,
        mask: Seq<bool>,
        a: int,
        b: int,
        frame: int,
    )
        requires
            0 <= a < self.nbr_channels,
            0 <= b < self.nbr_channels,
            self.channels_agree(a, b),
            wave_in[a] == wave_in[b],
            mask[a] == mask[b],
        ensures
            self.frame(a, wave_in[a], frame) == self.frame(b, wave_in[b], frame),
            self.advanced(wave_in, mask).channels_agree(a, b),
    {
    }

    /// The frames of a channel depend on nothing but the input of that
    /// channel: two calls that differ only in what they read of the other
    /// channels give it the same frames and leave the same of it in memory.
    pub proof fn law_other_channels_ignored(
        self,
        first: Seq<Seq<T>>,
        second: Seq<Seq<T>>,
        mask: Seq<bool>,
        channel: int,
        frame: int,
    )
        requires
            0 <= channel < self.nbr_channels,
            first[channel] == second[channel],
        ensures
            self.frame(channel, first[channel], frame) == self.frame(
                channel,
                second[channel],
                frame,
            ),
            self.advanced(first, mask).history[channel] == self.advanced(second, mask).history[channel],
    {
    }

    /// Nothing that a resampler goes through changes what it is after a
    /// reset: not a call that processes input, not a change of the ratio, not
    /// another reset.
    pub proof fn law_reset_forgets(
        self,
        wave_in: Seq<Seq<T>>,
        mask: Seq<bool>,
        new_ratio: T,
        ramp: bool,
    )
        ensures
            self.advanced(wave_in, mask).fresh() == self.fresh(),
            self.turned(new_ratio, ramp).fresh() == self.fresh(),
            self.fresh().fresh() == self.fresh(),
    {
        assert(self.advanced(wave_in, mask).fresh().history =~= self.fresh().history);
        assert(self.turned(new_ratio, ramp).fresh().history =~= self.fresh().history);
        assert(self.fresh().fresh().history =~= self.fresh().history);
    }

    /// Reset brings back the first output: a resampler that was new, has
    /// processed `wave_in` and is then reset gives the frames that it gave
    /// when it was new, for whatever input.
    pub proof fn law_reset_restores(
        self,
        wave_in: Seq<Seq<T>>,
        mask: Seq<bool>,
        channel: int,
        input: Seq<T>,
        frame: int,
    )
        requires
            self == self.fresh(),
        ensures
            self.advanced(wave_in, mask).fresh() == self,
            self.advanced(wave_in, mask).fresh().frame(channel, input, frame) == self.frame(
                channel,
                input,
                frame,
            ),
            self.advanced(wave_in, mask).fresh().output_frames_next() == self.output_frames_next(),
            self.advanced(wave_in, mask).fresh().input_frames_next() == self.input_frames_next(),
    {
        self.law_reset_forgets(wave_in, mask, T::zero(), false);
    }

    /// The first frame of a new resampler lies exactly on the sample whose
    /// number is the length of a kernel, in front of which the resampler
    /// remembers silence, and the first sample of the input is the one at
    /// twice that number. The centre of the kernels lying half their length
    /// after the frame, the first frame comes half a kernel before the input.
    pub proof fn law_first_frame(self, channel: int, input: Seq<T>)
        requires
            self.wf(),
            0 <= channel < self.nbr_channels,
            self.fresh().input_frames_next() >= 1,
            input.len() >= self.fresh().input_frames_next(),
        ensures
            self.fresh().cursor.index == self.sinc_len(),
            self.fresh().cursor.fraction == T::zero(),
            self.fresh().staged(channel, input).subrange(0, 2 * self.sinc_len() as int)
                == silence::<T>(2 * self.sinc_len()),
            self.fresh().staged(channel, input)[2 * self.sinc_len() as int] == input[0],
            self.fresh().frame(channel, input, 0) == interpolated(
                self.sincs,
                self.interpolation,
                self.fresh().staged(channel, input),
                self.sinc_len() as int,
                T::zero(),
            ),
    {
        let fresh = self.fresh();
        assert(fresh.history[channel].len() == 2 * self.sinc_len());
        assert(input.take(fresh.input_frames_next() as int)[0] == input[0]);
        assert(fresh.staged(channel, input).subrange(0, 2 * self.sinc_len() as int)
            =~= silence::<T>(2 * self.sinc_len()));
    }

    /// A call never reads or writes more frames than the most that the
    /// resampler names, whatever its ratio is, so buffers of that size serve
    /// every call.
    pub proof fn law_next_within_max(self)
        ensures
            self.input_frames_next() <= self.input_frames_max(),
            self.output_frames_next() <= self.output_frames_max(),
    {
        self.cursor.lemma_frames_within_limit(
            (self.sinc_len() + self.chunk_size - 1) as usize,
            self.width as nat,
        );
    }

    /// A call leaves the parameters of the resampler as they are, and leaves
    /// it in order.
    pub proof fn law_call_keeps_order(self, wave_in: Seq<Seq<T>>, mask: Seq<bool>)
        requires
            self.wf(),
            wave_in.len() == self.nbr_channels,
            forall|c: int|
                0 <= c < self.nbr_channels ==> (#[trigger] wave_in[c]).len()
                    >= self.input_frames_next(),
        ensures
            self.advanced(wave_in, mask).wf(),
            self.advanced(wave_in, mask).nbr_channels == self.nbr_channels,
            self.advanced(wave_in, mask).input_frames_max() == self.input_frames_max(),
            self.advanced(wave_in, mask).output_frames_max() == self.output_frames_max(),
            self.advanced(wave_in, mask).cursor.ratio == self.cursor.target,
            self.advanced(wave_in, mask).cursor.target == self.cursor.target,
            self.advanced(wave_in, mask).cursor.remaining == 0,
    {
        self.cursor.lemma_after_keeps_target(self.output_frames_next() as nat);
    }
}

/// Calculate the frames of one channel: `frames` frames from the place of
/// `cursor` on, taken from `hist` and written to the front of `out`.
fn resample_channel<T: Sample>(
    sincs: &Vec<Vec<T>>,
    interpolation: SincInterpolationType,
    hist: &[T],
    cursor: Cursor<T>,
    frames: usize,
    last: usize,
    out: &mut Vec<T>,
)
    requires
        is_table(sincs@),
        2 <= last,
        last + 1 + taps_of(sincs@) <= hist@.len(),
        frames <= old(out)@.len(),
    ensures
        final(out)@.len() == old(out)@.len(),
        forall|i: int|
            0 <= i < frames ==> final(out)@[i] == interpolated(
                sincs@,
                interpolation,
                hist@,
                held(cursor.after(i as nat).index, 2, last) as int,
                cursor.after(i as nat).fraction,
            ),
        forall|i: int| frames <= i < old(out)@.len() ==> final(out)@[i] == old(out)@[i],
{
    let mut place = cursor;
    let mut i: usize = 0;
    while i < frames
        invariant
            i <= frames,
            frames <= out@.len(),
            out@.len() == old(out)@.len(),
            is_table(sincs@),
            2 <= last,
            last + 1 + taps_of(sincs@) <= hist@.len(),
            place == cursor.after(i as nat),
            forall|j: int|
                0 <= j < i ==> out@[j] == interpolated(
                    sincs@,
                    interpolation,
                    hist@,
                    held(cursor.after(j as nat).index, 2, last) as int,
                    cursor.after(j as nat).fraction,
                ),
            forall|j: int| i <= j < out@.len() ==> out@[j] == old(out)@[j],
        decreases frames - i,
    {
        let at = if place.index > last {
            last
        } else if place.index < 2 {
            2
        } else {
            place.index
        };
        out[i] = interpolate(sincs, interpolation, hist, at, place.fraction);
        place = place.next();
        i += 1;
    }
}

/// What is wrong with the parameters of a resampler, if anything is; the
/// ratio is looked at first, then the maximum relative ratio, the length of
/// the kernels and the oversampling factor.
pub open spec fn construction_fault<T: Sample>(
    resample_ratio: T,
    max_relative_ratio: T,
    parameters: SincInterpolationParameters<T>,
) -> Option<ResamplerConstructionError<T>> {
    if !T::zero().lt(resample_ratio) {
        Some(ResamplerConstructionError::InvalidRatio { got: resample_ratio })
    } else if !T::one().le(max_relative_ratio) {
        Some(
            ResamplerConstructionError::InvalidRelativeRatio {
                got: max_relative_ratio,
                max: max_relative_ratio,
            },
        )
    } else if parameters.sinc_len == 0 || parameters.sinc_len % SINC_LEN_MULTIPLE != 0 {
        Some(
            ResamplerConstructionError::InvalidSincLength {
                got: parameters.sinc_len,
                required_multiple: SINC_LEN_MULTIPLE,
            },
        )
    } else if parameters.oversampling_factor == 0 || parameters.oversampling_factor + 2
        > usize::MAX {
        Some(
            ResamplerConstructionError::InvalidOversamplingFactor {
                got: parameters.oversampling_factor,
            },
        )
    } else {
        None
    }
}

/// The cutoff of the kernels: the one that was asked for where the ratio is
/// at least one, and that cutoff times the ratio where the output has the
/// lower rate.
pub open spec fn kernel_cutoff<T: Sample>(resample_ratio: T, f_cutoff: T) -> T {
    if T::one().le(resample_ratio) {
        f_cutoff
    } else {
        f_cutoff.times(resample_ratio)
    }
}

/// The most frames that the free side of a resampler can have in one call.
///
/// With a fixed input it is the output of one chunk at the highest ratio,
/// `ceil(chunk_size * ratio * max_relative_ratio)`, and ten frames more. With
/// a fixed output it is the input of one chunk at the lowest ratio,
/// `ceil(chunk_size * max_relative_ratio / ratio)`, and half a kernel and two
/// frames more, as far as the history has room for that beside two kernels.
pub open spec fn free_width<T: Sample>(
    fixed_input: bool,
    resample_ratio: T,
    max_relative_ratio: T,
    sinc_len: usize,
    chunk_size: usize,
) -> usize {
    if fixed_input {
        crate::cursor::saturated_sum(
            T::coerce(chunk_size).times(resample_ratio).times(max_relative_ratio).ceil(),
            10,
        )
    } else {
        let wanted = crate::cursor::saturated_sum(
            T::coerce(chunk_size).times(max_relative_ratio).over(resample_ratio).ceil(),
            (sinc_len / 2 + 2) as usize,
        );
        if wanted > usize::MAX - 2 * sinc_len {
            (usize::MAX - 2 * sinc_len) as usize
        } else {
            wanted
        }
    }
}

/// Whether `model` is the resampler that these parameters ask for, as it is
/// when it has just been built.
pub open spec fn built<T: Sample>(
    model: SincModel<T>,
    fixed_input: bool,
    resample_ratio: T,
    max_relative_ratio: T,
    parameters: SincInterpolationParameters<T>,
    chunk_size: usize,
    nbr_channels: usize,
) -> bool {
    &&& model.wf()
    &&& model == model.fresh()
    &&& model.fixed_input == fixed_input
    &&& model.nbr_channels == nbr_channels
    &&& model.chunk_size == chunk_size
    &&& model.width == free_width(
        fixed_input,
        resample_ratio,
        max_relative_ratio,
        parameters.sinc_len,
        chunk_size,
    )
    &&& model.interpolation == parameters.interpolation
    &&& is_sinc_table(
        model.sincs,
        parameters.sinc_len,
        parameters.oversampling_factor,
        kernel_cutoff(resample_ratio, parameters.f_cutoff),
        parameters.window,
    )
    &&& model.resample_ratio_original == resample_ratio
    &&& model.max_relative_ratio == max_relative_ratio
}

/// The state that both sinc resamplers share.
struct SincCore<T> {
    fixed_input: bool,
    nbr_channels: usize,
    chunk_size: usize,
    width: usize,
    sinc_len: usize,
    interpolation: SincInterpolationType,
    sincs: Vec<Vec<T>>,
    resample_ratio_original: T,
    max_relative_ratio: T,
    history: Vec<DelayLine<T>>,
    channel_mask: Vec<bool>,
    cursor: Cursor<T>,
    free_next: usize,
}

impl<T: Sample> View for SincCore<T> {
    type V = SincModel<T>;

    closed spec fn view(&self) -> SincModel<T> {
        SincModel {
            fixed_input: self.fixed_input,
            nbr_channels: self.nbr_channels,
            chunk_size: self.chunk_size,
            width: self.width,
            interpolation: self.interpolation,
            sincs: self.sincs@,
            resample_ratio_original: self.resample_ratio_original,
            max_relative_ratio: self.max_relative_ratio,
            history: Seq::new(self.history@.len(), |c: int| self.history@[c]@),
            cursor: self.cursor,
        }
    }
}

impl<T: Sample> SincCore<T> {
    /// Whether the state is in order, but for the frames that it has counted
    /// ahead for the next call.
    closed spec fn shaped(&self) -> bool {
        &&& self@.wf()
        &&& self.sinc_len == self@.sinc_len()
        &&& self.history@.len() == self.nbr_channels
        &&& forall|c: int|
            0 <= c < self.nbr_channels ==> (#[trigger] self.history@[c]).wf()
                && self.history@[c].room() == 2 * self.sinc_len + self@.input_frames_max()
        &&& self.channel_mask@.len() == self.nbr_channels
    }

    /// Whether the state is in order.
    closed spec fn wf(&self) -> bool {
        &&& self.shaped()
        &&& self.free_next == self@.free_frames()
        &&& self.free_next <= self.width
    }

    fn new(
        fixed_input: bool,
        resample_ratio: T,
        max_relative_ratio: T,
        parameters: SincInterpolationParameters<T>,
        chunk_size: usize,
        nbr_channels: usize,
    ) -> (result: Result<Self, ResamplerConstructionError<T>>)
        requires
            2 * parameters.sinc_len + (if fixed_input {
                chunk_size
            } else {
                0
            }) <= usize::MAX,
        ensures
            match result {
                Err(error) => construction_fault(resample_ratio, max_relative_ratio, parameters)
                    == Some(error),
                Ok(core) => {
                    &&& construction_fault(resample_ratio, max_relative_ratio, parameters) is None
                    &&& core.wf()
                    &&& built(
                        core@,
                        fixed_input,
                        resample_ratio,
                        max_relative_ratio,
                        parameters,
                        chunk_size,
                        nbr_channels,
                    )
                },
            },
    {
        if !T::zero().lt(resample_ratio) {
            return Err(ResamplerConstructionError::InvalidRatio { got: resample_ratio });
        }
        if !T::one().le(max_relative_ratio) {
            return Err(
                ResamplerConstructionError::InvalidRelativeRatio {
                    got: max_relative_ratio,
                    max: max_relative_ratio,
                },
            );
        }
        let sinc_len = parameters.sinc_len;
        if sinc_len == 0 || sinc_len % SINC_LEN_MULTIPLE != 0 {
            return Err(
                ResamplerConstructionError::InvalidSincLength {
                    got: sinc_len,
                    required_multiple: SINC_LEN_MULTIPLE,
                },
            );
        }
        let factor = parameters.oversampling_factor;
        if factor == 0 || factor > usize::MAX - 2 {
            return Err(ResamplerConstructionError::InvalidOversamplingFactor { got: factor });
        }
        let cutoff = if T::one().le(resample_ratio) {
            parameters.f_cutoff
        } else {
            parameters.f_cutoff.times(resample_ratio)
        };
        let sincs = make_sincs::<T>(sinc_len, factor, cutoff, parameters.window);
        let width = if fixed_input {
            T::coerce(chunk_size).times(resample_ratio).times(max_relative_ratio).ceil()
                .saturating_add(10)
        } else {
            let wanted = T::coerce(chunk_size).times(max_relative_ratio).over(resample_ratio).ceil()
                .saturating_add(sinc_len / 2 + 2);
            if wanted > usize::MAX - 2 * sinc_len {
                usize::MAX - 2 * sinc_len
            } else {
                wanted
            }
        };
        let spare = if fixed_input {
            chunk_size
        } else {
            width
        };
        let mut history: Vec<DelayLine<T>> = Vec::with_capacity(nbr_channels);
        let mut channel_mask: Vec<bool> = Vec::with_capacity(nbr_channels);
        let mut c: usize = 0;
        while c < nbr_channels
            invariant
                c <= nbr_channels,
                2 * sinc_len + spare <= usize::MAX,
                history@.len() == c,
                channel_mask@.len() == c,
                forall|k: int|
                    0 <= k < c ==> (#[trigger] history@[k]).wf() && history@[k]@ == silence::<T>(
                        (2 * sinc_len) as nat,
                    ) && history@[k].room() == 2 * sinc_len + spare,
            decreases nbr_channels - c,
        {
            history.push(DelayLine::new(2 * sinc_len, spare));
            channel_mask.push(true);
            c += 1;
        }
        let mut core = SincCore {
            fixed_input,
            nbr_channels,
            chunk_size,
            width,
            sinc_len,
            interpolation: parameters.interpolation,
            sincs,
            resample_ratio_original: resample_ratio,
            max_relative_ratio,
            history,
            channel_mask,
            cursor: Cursor::steady(sinc_len, resample_ratio),
            free_next: 0,
        };
        assert(core@.history =~= core@.fresh().history);
        core.free_next = core.count_free();
        Ok(core)
    }

    /// Count the frames that the free side would have in the next call if
    /// the cursor were `cursor`.
    fn count_free_from(&self, cursor: Cursor<T>) -> (frames: usize)
        requires
            self.shaped(),
        ensures
            frames == (SincModel { cursor, ..self@ }).free_frames(),
            frames <= self.width,
    {
        if self.fixed_input {
            cursor.count_frames(self.sinc_len + self.chunk_size - 1, self.width)
        } else if self.chunk_size == 0 {
            0
        } else {
            let last = cursor.skip(self.chunk_size - 1).index;
            let needed = last.saturating_sub(self.sinc_len - 1);
            if needed > self.width {
                self.width
            } else {
                needed
            }
        }
    }

    /// Take the mask of a call over: the one that was given, or all channels active.
    fn take_mask(&mut self, active_channels_mask: Option<&[bool]>)
        requires
            old(self).wf(),
            mask_or_all(active_channels_mask, old(self).nbr_channels).len() == old(
                self,
            ).nbr_channels,
        ensures
            final(self).wf(),
            final(self)@ == old(self)@,
            final(self).channel_mask@ == mask_or_all(active_channels_mask, old(self).nbr_channels),
    {
        match active_channels_mask {
            Some(given) => {
                let channels = self.nbr_channels;
                let mut c: usize = 0;
                while c < channels
                    invariant
                        c <= channels,
                        channels == self.nbr_channels,
                        given@.len() == channels,
                        self.wf(),
                        self@ == old(self)@,
                        forall|k: int| 0 <= k < c ==> self.channel_mask@[k] == given@[k],
                    decreases channels - c,
                {
                    self.channel_mask[c] = given[c];
                    c += 1;
                }
                assert(self.channel_mask@ =~= given@);
            },
            None => {
                update_mask_from_buffers(self.channel_mask.as_mut_slice());
                assert(self.channel_mask@ =~= mask_or_all(active_channels_mask, self.nbr_channels));
            },
        }
    }

    /// Resample a chunk of audio into `wave_out`.
    fn process_into_buffer(
        &mut self,
        wave_in: &[Vec<T>],
        wave_out: &mut [Vec<T>],
        active_channels_mask: Option<&[bool]>,
    ) -> (result: ResampleResult<(usize, usize), T>)
        requires
            old(self).wf(),
        ensures
            final(self).wf(),
            channel_lengths(final(wave_out)@) == channel_lengths(old(wave_out)@),
            result is Ok <==> buffers_fit(
                channel_lengths(wave_in@),
                channel_lengths(old(wave_out)@),
                mask_or_all(active_channels_mask, old(self)@.nbr_channels).len(),
                old(self)@.nbr_channels,
                old(self)@.input_frames_next(),
                old(self)@.output_frames_next(),
            ),
            result matches Err(error) ==> {
                &&& first_shape_error(
                    channel_lengths(wave_in@),
                    channel_lengths(old(wave_out)@),
                    mask_or_all(active_channels_mask, old(self)@.nbr_channels).len(),
                    old(self)@.nbr_channels,
                    old(self)@.input_frames_next(),
                    old(self)@.output_frames_next(),
                    error,
                )
                &&& *final(self) == *old(self)
                &&& final(wave_out)@ == old(wave_out)@
            },
            result matches Ok(frames) ==> {
                &&& frames == (old(self)@.input_frames_next(), old(self)@.output_frames_next())
                &&& final(self)@ == old(self)@.advanced(
                    channel_frames(wave_in@),
                    mask_or_all(active_channels_mask, old(self)@.nbr_channels),
                )
                &&& forall|c: int, i: int|
                    0 <= c < old(wave_out)@.len() && 0 <= i < old(wave_out)@[c]@.len() ==> (
                    #[trigger] final(wave_out)@[c]@[i]) == old(self)@.written(
                        channel_frames(wave_in@),
                        mask_or_all(active_channels_mask, old(self)@.nbr_channels),
                        channel_frames(old(wave_out)@),
                        c,
                        i,
                    )
            },
    {
        let channels = self.nbr_channels;
        let needed = self.input_frames_next();
        let frames = self.output_frames_next();
        let checked = match active_channels_mask {
            Some(given) => validate_buffers(wave_in, wave_out, given, channels, needed, frames),
            None => validate_buffers(
                wave_in,
                wave_out,
                self.channel_mask.as_slice(),
                channels,
                needed,
                frames,
            ),
        };
        if let Err(error) = checked {
            return Err(error);
        }
        self.take_mask(active_channels_mask);
        let ghost model = old(self)@;
        let ghost mask = mask_or_all(active_channels_mask, channels);
        let ghost before = old(wave_out)@;
        let ghost input = channel_frames(wave_in@);
        let last = self.sinc_len + needed - 1;
        assert forall|k: int| 0 <= k < channels implies (#[trigger] wave_in@[k])@.len()
            >= needed by {
            assert(channel_lengths(wave_in@)[k] >= needed);
        }
        assert forall|k: int| 0 <= k < channels implies (#[trigger] before[k])@.len()
            >= frames by {
            assert(channel_lengths(before)[k] >= frames);
        }
        let mut c: usize = 0;
        while c < channels
            invariant
                c <= channels,
                channels == model.nbr_channels,
                needed == model.input_frames_next(),
                frames == model.output_frames_next(),
                last == model.last(),
                model == old(self)@,
                model.wf(),
                self.wf(),
                self.channel_mask@ == mask,
                input == channel_frames(wave_in@),
                wave_in@.len() == channels,
                wave_out@.len() == channels,
                before.len() == channels,
                forall|k: int| 0 <= k < channels ==> (#[trigger] wave_in@[k])@.len() >= needed,
                forall|k: int| 0 <= k < channels ==> (#[trigger] before[k])@.len() >= frames,
                forall|k: int|
                    0 <= k < channels ==> (#[trigger] wave_out@[k])@.len() == before[k]@.len(),
                self@ == (SincModel { history: self@.history, ..model }),
                forall|k: int|
                    0 <= k < c ==> (#[trigger] self.history@[k])@ == model.history_after(
                        k,
                        input[k],
                        mask[k],
                    ),
                forall|k: int|
                    c <= k < channels ==> (#[trigger] self.history@[k])@ == model.history[k],
                forall|k: int, i: int|
                    0 <= k < c && 0 <= i < before[k]@.len() ==> (#[trigger] wave_out@[k]@[i])
                        == model.written(input, mask, channel_frames(before), k, i),
                forall|k: int| c <= k < channels ==> (#[trigger] wave_out@[k]) == before[k],
            decreases channels - c,
        {
            let ghost lines = self.history@;
            assert(input[c as int] == wave_in@[c as int]@);
            assert(model.history[c as int].len() == 2 * self.sinc_len);
            if self.channel_mask[c] {
                self.history[c].append(wave_in[c].as_slice(), needed);
                assert(self.history@[c as int]@ == model.staged(c as int, input[c as int]));
                resample_channel(
                    &self.sincs,
                    self.interpolation,
                    self.history[c].samples(),
                    self.cursor,
                    frames,
                    last,
                    &mut wave_out[c],
                );
            } else {
                self.history[c].append_silence(needed);
            }
            self.history[c].discard(needed);
            assert(self.history@[c as int]@ == model.history_after(
                c as int,
                input[c as int],
                mask[c as int],
            ));
            assert forall|k: int| 0 <= k < channels implies (#[trigger] self.history@[k]).wf()
                && self.history@[k].room() == 2 * self.sinc_len + self@.input_frames_max()
                && self.history@[k]@.len() == 2 * self.sinc_len by {
                if k != c {
                    assert(self.history@[k] == lines[k]);
                }
            }
            c += 1;
        }
        self.cursor = self.cursor.skip(frames).rebased(needed);
        self.free_next = self.count_free();
        assert(self@.history =~= model.advanced(input, mask).history);
        assert(self@ == model.advanced(input, mask));
        Ok((needed, frames))
    }

    /// Turn to the ratio `new_ratio`, which is `relative` times the original
    /// one, if the resampler admits that.
    fn set_ratio(&mut self, relative: T, new_ratio: T, ramp: bool) -> (result: ResampleResult<
        (),
        T,
    >)
        requires
            old(self).wf(),
        ensures
            final(self).wf(),
            match old(self)@.ratio_fault(relative) {
                Some(error) => result == Err::<(), ResampleError<T>>(error) && *final(self) == *old(
                    self,
                ),
                None => result is Ok && final(self)@ == old(self)@.turned(new_ratio, ramp),
            },
    {
        let min = T::one().over(self.max_relative_ratio);
        if min.le(relative) && relative.le(self.max_relative_ratio) {
            let steady = self.cursor.turned(self.cursor.ratio, false, 0);
            let frames = if self.fixed_input {
                self.count_free_from(steady)
            } else {
                self.chunk_size
            };
            self.cursor = self.cursor.turned(new_ratio, ramp, frames);
            self.free_next = self.count_free();
            Ok(())
        } else {
            Err(
                ResampleError::RatioOutOfBounds {
                    got: relative,
                    min,
                    max: self.max_relative_ratio,
                },
            )
        }
    }

    /// Go back to the state that the resampler was built in.
    fn reset(&mut self)
        requires
            old(self).wf(),
        ensures
            final(self).wf(),
            final(self)@ == old(self)@.fresh(),
    {
        let channels = self.nbr_channels;
        let mut c: usize = 0;
        while c < channels
            invariant
                c <= channels,
                channels == self.nbr_channels,
                self.wf(),
                self@ == (SincModel { history: self@.history, ..old(self)@ }),
                forall|k: int|
                    0 <= k < c ==> (#[trigger] self.history@[k])@ == silence::<T>(
                        (2 * self.sinc_len) as nat,
                    ),
            decreases channels - c,
        {
            let ghost lines = self.history@;
            assert forall|k: int| 0 <= k < channels implies (#[trigger] lines[k])@.len() == 2
                * self.sinc_len by {
                assert(self@.history[k].len() == 2 * self.sinc_len);
            }
            self.history[c].clear();
            assert forall|k: int| 0 <= k < channels implies (#[trigger] self.history@[k]).wf()
                && self.history@[k].room() == 2 * self.sinc_len + self@.input_frames_max()
                && self.history@[k]@.len() == 2 * self.sinc_len by {
                if k != c {
                    assert(self.history@[k] == lines[k]);
                }
            }
            c += 1;
        }
        update_mask_from_buffers(self.channel_mask.as_mut_slice());
        self.cursor = Cursor::steady(self.sinc_len, self.resample_ratio_original);
        self.free_next = self.count_free();
        assert(self@.history =~= old(self)@.fresh().history);
    }

    /// Count the frames of the free side in the next call.
    fn count_free(&self) -> (frames: usize)
        requires
            self.shaped(),
        ensures
            frames == self@.free_frames(),
            frames <= self.width,
    {
        self.count_free_from(self.cursor)
    }

    fn input_frames_next(&self) -> (frames: usize)
        requires
            self.wf(),
        ensures
            frames == self@.input_frames_next(),
            frames <= self@.input_frames_max(),
    {
        if self.fixed_input {
            self.chunk_size
        } else {
            self.free_next
        }
    }

    fn output_frames_next(&self) -> (frames: usize)
        requires
            self.wf(),
        ensures
            frames == self@.output_frames_next(),
            frames <= self@.output_frames_max(),
    {
        if self.fixed_input {
            self.free_next
        } else {
            self.chunk_size
        }
    }

    fn input_frames_max(&self) -> (frames: usize)
        ensures
            frames == self@.input_frames_max(),
    {
        if self.fixed_input {
            self.chunk_size
        } else {
            self.width
        }
    }

    fn output_frames_max(&self) -> (frames: usize)
        ensures
            frames == self@.output_frames_max(),
    {
        if self.fixed_input {
            self.width
        } else {
            self.chunk_size
        }
    }

    fn nbr_channels(&self) -> (channels: usize)
        ensures
            channels == self@.nbr_channels,
    {
        self.nbr_channels
    }
}


/// An asynchronous resampler that accepts a fixed number of audio frames for input
/// and returns a variable number of frames.
///
/// The resampling is done by creating a number of intermediate points (defined by oversampling_factor)
/// by sinc interpolation. The new samples are then calculated by interpolating between these points.
///
/// The resampling ratio can be freely adjusted within the range specified to the constructor.
/// Adjusting the ratio does not recalculate the sinc functions used by the anti-aliasing filter.
/// This causes no issue when increasing the ratio (which slows down the output).
/// However when decreasing more than a few percent (or speeding up the output),
/// the filters can no longer suppress all aliasing and this may lead to some artefacts.
pub struct SincFixedIn<T> {
    core: SincCore<T>,
}

impl<T: Sample> View for SincFixedIn<T> {
    type V = SincModel<T>;

    closed spec fn view(&self) -> SincModel<T> {
        self.core@
    }
}

impl<T: Sample> SincFixedIn<T> {
    /// Create a new SincFixedIn
    ///
    /// Parameters are:
    /// - `resample_ratio`: Starting ratio between output and input sample rates, must be > 0.
    /// - `max_resample_ratio_relative`: Maximum ratio that can be set with
    ///   [Resampler::set_resample_ratio] relative to `resample_ratio`, must be >= 1.0. The minimum
    ///   relative ratio is the reciprocal of the maximum. For example, with
    ///   `max_resample_ratio_relative` of 10.0, the ratio can be set between `resample_ratio * 10.0`
    ///   and `resample_ratio / 10.0`.
    /// - `parameters`: Parameters for interpolation, see `SincInterpolationParameters`
    /// - `chunk_size`: size of input data in frames
    /// - `nbr_channels`: number of channels in input/output
    ///
    /// The history of one channel, which is twice the length of a kernel and a chunk, has to
    /// fit in a `usize`.
    pub fn new(
        resample_ratio: T,
        max_resample_ratio_relative: T,
        parameters: SincInterpolationParameters<T>,
        chunk_size: usize,
        nbr_channels: usize,
    ) -> (result: Result<Self, ResamplerConstructionError<T>>)
        requires
            2 * parameters.sinc_len + chunk_size <= usize::MAX,
        ensures
            match result {
                Err(error) => construction_fault(
                    resample_ratio,
                    max_resample_ratio_relative,
                    parameters,
                ) == Some(error),
                Ok(resampler) => {
                    &&& construction_fault(resample_ratio, max_resample_ratio_relative, parameters)
                        is None
                    &&& resampler.wf()
                    &&& built(
                        resampler@,
                        true,
                        resample_ratio,
                        max_resample_ratio_relative,
                        parameters,
                        chunk_size,
                        nbr_channels,
                    )
                },
            },
    {
        match SincCore::new(
            true,
            resample_ratio,
            max_resample_ratio_relative,
            parameters,
            chunk_size,
            nbr_channels,
        ) {
            Ok(core) => Ok(SincFixedIn { core }),
            Err(error) => Err(error),
        }
    }

    /// The resampling ratio that the next frame is taken at.
    pub fn resample_ratio(&self) -> (ratio: T)
        ensures
            ratio == self@.cursor.ratio,
    {
        self.core.cursor.ratio
    }

    /// A resampler that is in order has a model that is in order, with the
    /// side fixed that the type names.
    pub proof fn law_model_in_order(&self)
        requires
            self.wf(),
        ensures
            self@.wf(),
            self@.fixed_input == true,
    {
    }
}

impl<T: Sample> Resampler<T> for SincFixedIn<T> {
    closed spec fn wf(&self) -> bool {
        self.core.wf() && self.core.fixed_input == true
    }

    open spec fn nbr_channels_spec(&self) -> usize {
        self@.nbr_channels
    }

    open spec fn input_frames_max_spec(&self) -> usize {
        self@.input_frames_max()
    }

    open spec fn input_frames_next_spec(&self) -> usize {
        self@.input_frames_next()
    }

    open spec fn output_frames_max_spec(&self) -> usize {
        self@.output_frames_max()
    }

    open spec fn output_frames_next_spec(&self) -> usize {
        self@.output_frames_next()
    }

    open spec fn frame_spec(&self, channel: int, input: Seq<T>, frame: int) -> T {
        self@.frame(channel, input, frame)
    }

    open spec fn steps_to(&self, wave_in: Seq<Seq<T>>, mask: Seq<bool>, next: Self) -> bool {
        next@ == self@.advanced(wave_in, mask)
    }

    open spec fn ratio_fault(&self, new_ratio: T) -> Option<ResampleError<T>> {
        self@.ratio_fault(new_ratio.over(self@.resample_ratio_original))
    }

    open spec fn relative_ratio_fault(&self, rel_ratio: T) -> Option<ResampleError<T>> {
        self@.ratio_fault(rel_ratio)
    }

    open spec fn turns_to(&self, new_ratio: T, ramp: bool, next: Self) -> bool {
        next@ == self@.turned(new_ratio, ramp)
    }

    open spec fn turns_relative_to(&self, rel_ratio: T, ramp: bool, next: Self) -> bool {
        next@ == self@.turned(self@.resample_ratio_original.times(rel_ratio), ramp)
    }

    open spec fn resets_to(&self, next: Self) -> bool {
        next@ == self@.fresh()
    }

    fn process_into_buffer(
        &mut self,
        wave_in: &[Vec<T>],
        wave_out: &mut [Vec<T>],
        active_channels_mask: Option<&[bool]>,
    ) -> (result: ResampleResult<(usize, usize), T>) {
        self.core.process_into_buffer(wave_in, wave_out, active_channels_mask)
    }

    fn input_frames_max(&self) -> (frames: usize) {
        self.core.input_frames_max()
    }

    fn input_frames_next(&self) -> (frames: usize) {
        self.core.input_frames_next()
    }

    fn nbr_channels(&self) -> (channels: usize) {
        self.core.nbr_channels()
    }

    fn output_frames_max(&self) -> (frames: usize) {
        self.core.output_frames_max()
    }

    fn output_frames_next(&self) -> (frames: usize) {
        self.core.output_frames_next()
    }

    fn set_resample_ratio(&mut self, new_ratio: T, ramp: bool) -> (result: ResampleResult<(), T>) {
        let relative = new_ratio.over(self.core.resample_ratio_original);
        self.core.set_ratio(relative, new_ratio, ramp)
    }

    fn set_resample_ratio_relative(&mut self, rel_ratio: T, ramp: bool) -> (result: ResampleResult<
        (),
        T,
    >) {
        let new_ratio = self.core.resample_ratio_original.times(rel_ratio);
        self.core.set_ratio(rel_ratio, new_ratio, ramp)
    }

    fn reset(&mut self) {
        self.core.reset();
    }
}

/// An asynchronous resampler that returns a fixed number of audio frames.
/// The number of input frames required is given by the
/// [input_frames_next](Resampler::input_frames_next) function.
///
/// The resampling is done by creating a number of intermediate points (defined by oversampling_factor)
/// by sinc interpolation. The new samples are then calculated by interpolating between these points.
///
/// The resampling ratio can be freely adjusted within the range specified to the constructor.
/// Adjusting the ratio does not recalculate the sinc functions used by the anti-aliasing filter.
/// This causes no issue when increasing the ratio (which slows down the output).
/// However when decreasing more than a few percent (or speeding up the output),
/// the filters can no longer suppress all aliasing and this may lead to some artefacts.
pub struct SincFixedOut<T> {
    core: SincCore<T>,
}

impl<T: Sample> View for SincFixedOut<T> {
    type V = SincModel<T>;

    closed spec fn view(&self) -> SincModel<T> {
        self.core@
    }
}

impl<T: Sample> SincFixedOut<T> {
    /// Create a new SincFixedOut
    ///
    /// Parameters are:
    /// - `resample_ratio`: Starting ratio between output and input sample rates, must be > 0.
    /// - `max_resample_ratio_relative`: Maximum ratio that can be set with
    ///   [Resampler::set_resample_ratio] relative to `resample_ratio`, must be >= 1.0. The minimum
    ///   relative ratio is the reciprocal of the maximum. For example, with
    ///   `max_resample_ratio_relative` of 10.0, the ratio can be set between `resample_ratio * 10.0`
    ///   and `resample_ratio / 10.0`.
    /// - `parameters`: Parameters for interpolation, see `SincInterpolationParameters`
    /// - `chunk_size`: size of output data in frames
    /// - `nbr_channels`: number of channels in input/output
    ///
    /// The history of one channel, which is twice the length of a kernel, has to
    /// fit in a `usize`.
    pub fn new(
        resample_ratio: T,
        max_resample_ratio_relative: T,
        parameters: SincInterpolationParameters<T>,
        chunk_size: usize,
        nbr_channels: usize,
    ) -> (result: Result<Self, ResamplerConstructionError<T>>)
        requires
            2 * parameters.sinc_len <= usize::MAX,
        ensures
            match result {
                Err(error) => construction_fault(
                    resample_ratio,
                    max_resample_ratio_relative,
                    parameters,
                ) == Some(error),
                Ok(resampler) => {
                    &&& construction_fault(resample_ratio, max_resample_ratio_relative, parameters)
                        is None
                    &&& resampler.wf()
                    &&& built(
                        resampler@,
                        false,
                        resample_ratio,
                        max_resample_ratio_relative,
                        parameters,
                        chunk_size,
                        nbr_channels,
                    )
                },
            },
    {
        match SincCore::new(
            false,
            resample_ratio,
            max_resample_ratio_relative,
            parameters,
            chunk_size,
            nbr_channels,
        ) {
            Ok(core) => Ok(SincFixedOut { core }),
            Err(error) => Err(error),
        }
    }

    /// The resampling ratio that the next frame is taken at.
    pub fn resample_ratio(&self) -> (ratio: T)
        ensures
            ratio == self@.cursor.ratio,
    {
        self.core.cursor.ratio
    }

    /// A resampler that is in order has a model that is in order, with the
    /// side fixed that the type names.
    pub proof fn law_model_in_order(&self)
        requires
            self.wf(),
        ensures
            self@.wf(),
            self@.fixed_input == false,
    {
    }
}

impl<T: Sample> Resampler<T> for SincFixedOut<T> {
    closed spec fn wf(&self) -> bool {
        self.core.wf() && self.core.fixed_input == false
    }

    open spec fn nbr_channels_spec(&self) -> usize {
        self@.nbr_channels
    }

    open spec fn input_frames_max_spec(&self) -> usize {
        self@.input_frames_max()
    }

    open spec fn input_frames_next_spec(&self) -> usize {
        self@.input_frames_next()
    }

    open spec fn output_frames_max_spec(&self) -> usize {
        self@.output_frames_max()
    }

    open spec fn output_frames_next_spec(&self) -> usize {
        self@.output_frames_next()
    }

    open spec fn frame_spec(&self, channel: int, input: Seq<T>, frame: int) -> T {
        self@.frame(channel, input, frame)
    }

    open spec fn steps_to(&self, wave_in: Seq<Seq<T>>, mask: Seq<bool>, next: Self) -> bool {
        next@ == self@.advanced(wave_in, mask)
    }

    open spec fn ratio_fault(&self, new_ratio: T) -> Option<ResampleError<T>> {
        self@.ratio_fault(new_ratio.over(self@.resample_ratio_original))
    }

    open spec fn relative_ratio_fault(&self, rel_ratio: T) -> Option<ResampleError<T>> {
        self@.ratio_fault(rel_ratio)
    }

    open spec fn turns_to(&self, new_ratio: T, ramp: bool, next: Self) -> bool {
        next@ == self@.turned(new_ratio, ramp)
    }

    open spec fn turns_relative_to(&self, rel_ratio: T, ramp: bool, next: Self) -> bool {
        next@ == self@.turned(self@.resample_ratio_original.times(rel_ratio), ramp)
    }

    open spec fn resets_to(&self, next: Self) -> bool {
        next@ == self@.fresh()
    }

    fn process_into_buffer(
        &mut self,
        wave_in: &[Vec<T>],
        wave_out: &mut [Vec<T>],
        active_channels_mask: Option<&[bool]>,
    ) -> (result: ResampleResult<(usize, usize), T>) {
        self.core.process_into_buffer(wave_in, wave_out, active_channels_mask)
    }

    fn input_frames_max(&self) -> (frames: usize) {
        self.core.input_frames_max()
    }

    fn input_frames_next(&self) -> (frames: usize) {
        self.core.input_frames_next()
    }

    fn nbr_channels(&self) -> (channels: usize) {
        self.core.nbr_channels()
    }

    fn output_frames_max(&self) -> (frames: usize) {
        self.core.output_frames_max()
    }

    fn output_frames_next(&self) -> (frames: usize) {
        self.core.output_frames_next()
    }

    fn set_resample_ratio(&mut self, new_ratio: T, ramp: bool) -> (result: ResampleResult<(), T>) {
        let relative = new_ratio.over(self.core.resample_ratio_original);
        self.core.set_ratio(relative, new_ratio, ramp)
    }

    fn set_resample_ratio_relative(&mut self, rel_ratio: T, ramp: bool) -> (result: ResampleResult<
        (),
        T,
    >) {
        let new_ratio = self.core.resample_ratio_original.times(rel_ratio);
        self.core.set_ratio(rel_ratio, new_ratio, ramp)
    }

    fn reset(&mut self) {
        self.core.reset();
    }
}

} // verus!
