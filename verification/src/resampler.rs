use vstd::prelude::*;
use crate::error::{ResampleError, ResampleResult};
use crate::sample::Sample;
use crate::validate::{
    buffers_fit, channel_frames, channel_lengths, copied_sample, copy_buffer, even_lengths,
    first_shape_error, make_buffer, mask_or_all,
};

verus! {

/// The samples of `channels` channels of `frames` frames each that hold
/// `wave_in`, where one is given, as far as it has the channel and the frame,
/// and silence elsewhere.
pub open spec fn padded_frames<T: Sample>(
    wave_in: Option<&[Vec<T>]>,
    channels: usize,
    frames: usize,
) -> Seq<Seq<T>> {
    Seq::new(
        channels as nat,
        |c: int|
            Seq::new(
                frames as nat,
                |i: int|
                    match wave_in {
                        Some(given) => copied_sample(given@, T::zero(), c, i),
                        None => T::zero(),
                    },
            ),
    )
}

/// A resampler that is used to resample a chunk of audio to a new sample rate.
/// For asynchronous resamplers, the rate can be adjusted as required.
///
/// Input and output are not interleaved: a buffer holds one `Vec` of samples
/// for each channel.
pub trait Resampler<T: Sample>: Send {
    /// Whether the resampler is in order. Every resampler is when it has been
    /// built, and every method keeps it so.
    spec fn wf(&self) -> bool;

    /// The number of channels.
    spec fn nbr_channels_spec(&self) -> usize;

    /// The most frames that a call can read from each channel.
    spec fn input_frames_max_spec(&self) -> usize;

    /// The frames that the next call reads from each channel.
    spec fn input_frames_next_spec(&self) -> usize;

    /// The most frames that a call can write to each channel.
    spec fn output_frames_max_spec(&self) -> usize;

    /// The frames that the next call writes to each active channel.
    spec fn output_frames_next_spec(&self) -> usize;

    /// Frame `frame` that the next call writes to the active channel
    /// `channel`, of which it reads the samples `input`.
    spec fn frame_spec(&self, channel: int, input: Seq<T>, frame: int) -> T;

    /// Whether `next` is this resampler after a call that has read `wave_in`
    /// under `mask`.
    spec fn steps_to(&self, wave_in: Seq<Seq<T>>, mask: Seq<bool>, next: Self) -> bool where
        Self: Sized,
    ;

    /// The error that a change of the ratio to `new_ratio` meets, if it meets one.
    spec fn ratio_fault(&self, new_ratio: T) -> Option<ResampleError<T>>;

    /// The error that a change of the ratio to `rel_ratio` times the original
    /// one meets, if it meets one.
    spec fn relative_ratio_fault(&self, rel_ratio: T) -> Option<ResampleError<T>>;

    /// Whether `next` is this resampler after its ratio was set to `new_ratio`.
    spec fn turns_to(&self, new_ratio: T, ramp: bool, next: Self) -> bool where Self: Sized;

    /// Whether `next` is this resampler after its ratio was set to
    /// `rel_ratio` times the original one.
    spec fn turns_relative_to(&self, rel_ratio: T, ramp: bool, next: Self) -> bool where
        Self: Sized,
    ;

    /// Whether `next` is this resampler after a reset.
    spec fn resets_to(&self, next: Self) -> bool where Self: Sized;

    /// This is a convenience wrapper for [process_into_buffer](Resampler::process_into_buffer)
    /// that allocates the output buffer with each call. For realtime applications, use
    /// [process_into_buffer](Resampler::process_into_buffer) with a buffer allocated by
    /// [output_buffer_allocate](Resampler::output_buffer_allocate) instead of this function.
    ///
    /// The channels that are not active hold silence in the result.
    fn process(&mut self, wave_in: &[Vec<T>], active_channels_mask: Option<&[bool]>) -> (result:
        ResampleResult<Vec<Vec<T>>, T>) where Self: Sized
        requires
            old(self).wf(),
        ensures
            final(self).wf(),
            final(self).nbr_channels() == old(self).nbr_channels(),
            final(self).input_frames_max() == old(self).input_frames_max(),
            final(self).output_frames_max() == old(self).output_frames_max(),
            result is Ok <==> buffers_fit(
                channel_lengths(wave_in@),
                even_lengths(old(self).nbr_channels(), old(self).output_frames_next()),
                mask_or_all(active_channels_mask, old(self).nbr_channels()).len(),
                old(self).nbr_channels(),
                old(self).input_frames_next(),
                old(self).output_frames_next(),
            ),
            result matches Err(error) ==> {
                &&& first_shape_error(
                    channel_lengths(wave_in@),
                    even_lengths(old(self).nbr_channels(), old(self).output_frames_next()),
                    mask_or_all(active_channels_mask, old(self).nbr_channels()).len(),
                    old(self).nbr_channels(),
                    old(self).input_frames_next(),
                    old(self).output_frames_next(),
                    error,
                )
                &&& *final(self) == *old(self)
            },
            result matches Ok(wave_out) ==> {
                &&& channel_lengths(wave_out@) == even_lengths(
                    old(self).nbr_channels(),
                    old(self).output_frames_next(),
                )
                &&& old(self).steps_to(
                    channel_frames(wave_in@),
                    mask_or_all(active_channels_mask, old(self).nbr_channels()),
                    *final(self),
                )
                &&& forall|c: int, i: int|
                    0 <= c < old(self).nbr_channels() && 0 <= i < old(self).output_frames_next()
                        ==> (#[trigger] wave_out@[c]@[i]) == (if mask_or_all(
                        active_channels_mask,
                        old(self).nbr_channels(),
                    )[c] {
                        old(self).frame_spec(c, wave_in@[c]@, i)
                    } else {
                        T::zero()
                    })
            },
    {
        let channels = self.nbr_channels();
        let frames = self.output_frames_next();
        let mut wave_out = make_buffer::<T>(channels, frames);
        assert(channel_lengths(wave_out@) =~= even_lengths(channels, frames));
        let ghost before = wave_out@;
        let outcome = self.process_into_buffer(
            wave_in,
            wave_out.as_mut_slice(),
            active_channels_mask,
        );
        match outcome {
            Ok(_) => {
                assert forall|c: int, i: int| 0 <= c < channels && 0 <= i < frames implies (
                #[trigger] wave_out@[c]@[i]) == (if mask_or_all(active_channels_mask, channels)[c] {
                    old(self).frame_spec(c, wave_in@[c]@, i)
                } else {
                    T::zero()
                }) by {
                    assert(channel_lengths(before)[c] == frames);
                    assert(before[c]@[i] == T::zero());
                }
                Ok(wave_out)
            },
            Err(error) => Err(error),
        }
    }

    /// Resample a buffer of audio to a pre-allocated output buffer.
    /// Use this in real-time applications where the unpredictable time required to allocate
    /// memory from the heap can cause glitches. If this is not a problem, you may use
    /// the [process](Resampler::process) method instead.
    ///
    /// The `active_channels_mask` is optional.
    /// Any channel marked as inactive by a false value will be skipped during processing
    /// and the corresponding output will be left unchanged.
    /// If `None` is given, all channels will be considered active.
    ///
    /// Before processing, it checks that the input and outputs are valid.
    /// If either has the wrong number of channels, or if the buffer for any channel is too short,
    /// a [ResampleError](crate::error::ResampleError) is returned, and neither
    /// the resampler nor the output has changed.
    /// Both input and output are allowed to be longer than required.
    /// The number of input samples consumed and the number output samples written
    /// per channel is returned in a tuple, `(input_frames, output_frames)`.
    fn process_into_buffer(
        &mut self,
        wave_in: &[Vec<T>],
        wave_out: &mut [Vec<T>],
        active_channels_mask: Option<&[bool]>,
    ) -> (result: ResampleResult<(usize, usize), T>) where Self: Sized
        requires
            old(self).wf(),
        ensures
            final(self).wf(),
            final(self).nbr_channels() == old(self).nbr_channels(),
            final(self).input_frames_max() == old(self).input_frames_max(),
            final(self).output_frames_max() == old(self).output_frames_max(),
            channel_lengths(final(wave_out)@) == channel_lengths(old(wave_out)@),
            result is Ok <==> buffers_fit(
                channel_lengths(wave_in@),
                channel_lengths(old(wave_out)@),
                mask_or_all(active_channels_mask, old(self).nbr_channels()).len(),
                old(self).nbr_channels(),
                old(self).input_frames_next(),
                old(self).output_frames_next(),
            ),
            result matches Err(error) ==> {
                &&& first_shape_error(
                    channel_lengths(wave_in@),
                    channel_lengths(old(wave_out)@),
                    mask_or_all(active_channels_mask, old(self).nbr_channels()).len(),
                    old(self).nbr_channels(),
                    old(self).input_frames_next(),
                    old(self).output_frames_next(),
                    error,
                )
                &&& *final(self) == *old(self)
                &&& final(wave_out)@ == old(wave_out)@
            },
            result matches Ok(frames) ==> {
                &&& frames == (old(self).input_frames_next(), old(self).output_frames_next())
                &&& old(self).steps_to(
                    channel_frames(wave_in@),
                    mask_or_all(active_channels_mask, old(self).nbr_channels()),
                    *final(self),
                )
                &&& forall|c: int, i: int|
                    0 <= c < old(wave_out)@.len() && 0 <= i < old(wave_out)@[c]@.len() ==> (
                    #[trigger] final(wave_out)@[c]@[i]) == (if mask_or_all(
                        active_channels_mask,
                        old(self).nbr_channels(),
                    )[c] && i < old(self).output_frames_next() {
                        old(self).frame_spec(c, wave_in@[c]@, i)
                    } else {
                        old(wave_out)@[c]@[i]
                    })
            },
    ;

    /// This is a convenience method for processing the last frames at the end of a stream.
    /// Use this when there are fewer frames remaining than what the resampler requires as input.
    /// Calling this function is equivalent to padding the input buffer with zeros
    /// to make it the right input length, and then calling [process_into_buffer](Resampler::process_into_buffer).
    /// The method can also be called without any input frames, by providing `None` as input buffer.
    /// This can be utilized to push any remaining delayed frames out from the internal buffers.
    /// Note that this method allocates space for a temporary input buffer.
    /// Real-time applications should instead call `process_into_buffer` with a zero-padded pre-allocated input buffer.
    ///
    /// Of an input with more channels or more frames than the resampler reads,
    /// what is beyond is left out.
    fn process_partial_into_buffer(
        &mut self,
        wave_in: Option<&[Vec<T>]>,
        wave_out: &mut [Vec<T>],
        active_channels_mask: Option<&[bool]>,
    ) -> (result: ResampleResult<(usize, usize), T>) where Self: Sized
        requires
            old(self).wf(),
        ensures
            final(self).wf(),
            final(self).nbr_channels() == old(self).nbr_channels(),
            final(self).input_frames_max() == old(self).input_frames_max(),
            final(self).output_frames_max() == old(self).output_frames_max(),
            channel_lengths(final(wave_out)@) == channel_lengths(old(wave_out)@),
            result is Ok <==> buffers_fit(
                even_lengths(old(self).nbr_channels(), old(self).input_frames_next()),
                channel_lengths(old(wave_out)@),
                mask_or_all(active_channels_mask, old(self).nbr_channels()).len(),
                old(self).nbr_channels(),
                old(self).input_frames_next(),
                old(self).output_frames_next(),
            ),
            result matches Err(error) ==> {
                &&& first_shape_error(
                    even_lengths(old(self).nbr_channels(), old(self).input_frames_next()),
                    channel_lengths(old(wave_out)@),
                    mask_or_all(active_channels_mask, old(self).nbr_channels()).len(),
                    old(self).nbr_channels(),
                    old(self).input_frames_next(),
                    old(self).output_frames_next(),
                    error,
                )
                &&& *final(self) == *old(self)
                &&& final(wave_out)@ == old(wave_out)@
            },
            result matches Ok(frames) ==> {
                &&& frames == (old(self).input_frames_next(), old(self).output_frames_next())
                &&& old(self).steps_to(
                    padded_frames(
                        wave_in,
                        old(self).nbr_channels(),
                        old(self).input_frames_next(),
                    ),
                    mask_or_all(active_channels_mask, old(self).nbr_channels()),
                    *final(self),
                )
                &&& forall|c: int, i: int|
                    0 <= c < old(wave_out)@.len() && 0 <= i < old(wave_out)@[c]@.len() ==> (
                    #[trigger] final(wave_out)@[c]@[i]) == (if mask_or_all(
                        active_channels_mask,
                        old(self).nbr_channels(),
                    )[c] && i < old(self).output_frames_next() {
                        old(self).frame_spec(
                            c,
                            padded_frames(
                                wave_in,
                                old(self).nbr_channels(),
                                old(self).input_frames_next(),
                            )[c],
                            i,
                        )
                    } else {
                        old(wave_out)@[c]@[i]
                    })
            },
    {
        let channels = self.nbr_channels();
        let frames_needed = self.input_frames_next();
        let mut wave_in_padded = make_buffer::<T>(channels, frames_needed);
        if let Some(input) = wave_in {
            copy_buffer(input, &mut wave_in_padded);
        }
        proof {
            let padded = padded_frames(wave_in, channels, frames_needed);
            assert(channel_lengths(wave_in_padded@) =~= even_lengths(channels, frames_needed));
            assert forall|c: int| 0 <= c < channels implies #[trigger] channel_frames(
                wave_in_padded@,
            )[c] == padded[c] by {
                assert(wave_in_padded@[c]@.len() == frames_needed);
                assert(wave_in_padded@[c]@ =~= padded[c]);
            }
            assert(channel_frames(wave_in_padded@) =~= padded);
        }
        self.process_into_buffer(wave_in_padded.as_slice(), wave_out, active_channels_mask)
    }

    /// This is a convenience method for processing the last frames at the end of a stream.
    /// It is similar to [process_partial_into_buffer](Resampler::process_partial_into_buffer)
    /// but allocates the output buffer with each call.
    /// Note that this method allocates space for both input and output.
    ///
    /// The call cannot fail over the shape of its input, which it pads or
    /// cuts as needed, only over the length of the mask. The channels that
    /// are not active hold silence in the result.
    fn process_partial(
        &mut self,
        wave_in: Option<&[Vec<T>]>,
        active_channels_mask: Option<&[bool]>,
    ) -> (result: ResampleResult<Vec<Vec<T>>, T>) where Self: Sized
        requires
            old(self).wf(),
        ensures
            final(self).wf(),
            final(self).nbr_channels() == old(self).nbr_channels(),
            final(self).input_frames_max() == old(self).input_frames_max(),
            final(self).output_frames_max() == old(self).output_frames_max(),
            result is Ok <==> mask_or_all(active_channels_mask, old(self).nbr_channels()).len()
                == old(self).nbr_channels(),
            result matches Err(error) ==> {
                &&& error == (crate::error::ResampleError::<T>::WrongNumberOfMaskChannels {
                    expected: old(self).nbr_channels(),
                    actual: mask_or_all(active_channels_mask, old(self).nbr_channels()).len()
                        as usize,
                })
                &&& *final(self) == *old(self)
            },
            result matches Ok(wave_out) ==> {
                &&& channel_lengths(wave_out@) == even_lengths(
                    old(self).nbr_channels(),
                    old(self).output_frames_next(),
                )
                &&& old(self).steps_to(
                    padded_frames(
                        wave_in,
                        old(self).nbr_channels(),
                        old(self).input_frames_next(),
                    ),
                    mask_or_all(active_channels_mask, old(self).nbr_channels()),
                    *final(self),
                )
                &&& forall|c: int, i: int|
                    0 <= c < old(self).nbr_channels() && 0 <= i < old(self).output_frames_next()
                        ==> (#[trigger] wave_out@[c]@[i]) == (if mask_or_all(
                        active_channels_mask,
                        old(self).nbr_channels(),
                    )[c] {
                        old(self).frame_spec(
                            c,
                            padded_frames(
                                wave_in,
                                old(self).nbr_channels(),
                                old(self).input_frames_next(),
                            )[c],
                            i,
                        )
                    } else {
                        T::zero()
                    })
            },
    {
        let channels = self.nbr_channels();
        let frames = self.output_frames_next();
        let mut wave_out = make_buffer::<T>(channels, frames);
        assert(channel_lengths(wave_out@) =~= even_lengths(channels, frames));
        let ghost before = wave_out@;
        let outcome = self.process_partial_into_buffer(
            wave_in,
            wave_out.as_mut_slice(),
            active_channels_mask,
        );
        match outcome {
            Ok(_) => {
                assert forall|c: int, i: int| 0 <= c < channels && 0 <= i < frames implies (
                #[trigger] wave_out@[c]@[i]) == (if mask_or_all(active_channels_mask, channels)[c] {
                    old(self).frame_spec(
                        c,
                        padded_frames(wave_in, channels, old(self).input_frames_next())[c],
                        i,
                    )
                } else {
                    T::zero()
                }) by {
                    assert(channel_lengths(before)[c] == frames);
                    assert(before[c]@[i] == T::zero());
                }
                Ok(wave_out)
            },
            Err(error) => {
                proof {
                    let needed = old(self).input_frames_next();
                    let lengths = even_lengths(channels, needed);
                    assert forall|c: int| 0 <= c < lengths.len() implies lengths[c] >= needed by {}
                    assert forall|c: int| 0 <= c < channel_lengths(before).len() implies channel_lengths(
                        before,
                    )[c] >= frames by {}
                }
                Err(error)
            },
        }
    }

    /// Convenience method for allocating an input buffer suitable for use with
    /// [process_into_buffer](Resampler::process_into_buffer). The buffer's capacity
    /// is big enough to prevent allocating additional heap memory before any call to
    /// [process_into_buffer](Resampler::process_into_buffer) regardless of the current
    /// resampling ratio.
    fn input_buffer_allocate(&self) -> (buffer: Vec<Vec<T>>)
        requires
            self.wf(),
        ensures
            channel_lengths(buffer@) == even_lengths(self.nbr_channels(), self.input_frames_max()),
            forall|c: int, i: int|
                0 <= c < self.nbr_channels() && 0 <= i < self.input_frames_max() ==> (
                #[trigger] buffer@[c]@[i]) == T::zero(),
    {
        let buffer = make_buffer::<T>(self.nbr_channels(), self.input_frames_max());
        assert(channel_lengths(buffer@) =~= even_lengths(
            self.nbr_channels(),
            self.input_frames_max(),
        ));
        buffer
    }

    /// Convenience method for allocating an output buffer suitable for use with
    /// [process_into_buffer](Resampler::process_into_buffer). The buffer's capacity
    /// is big enough to prevent allocating additional heap memory during any call to
    /// [process_into_buffer](Resampler::process_into_buffer) regardless of the current
    /// resampling ratio.
    fn output_buffer_allocate(&self) -> (buffer: Vec<Vec<T>>)
        requires
            self.wf(),
        ensures
            channel_lengths(buffer@) == even_lengths(
                self.nbr_channels(),
                self.output_frames_max(),
            ),
            forall|c: int, i: int|
                0 <= c < self.nbr_channels() && 0 <= i < self.output_frames_max() ==> (
                #[trigger] buffer@[c]@[i]) == T::zero(),
    {
        let buffer = make_buffer::<T>(self.nbr_channels(), self.output_frames_max());
        assert(channel_lengths(buffer@) =~= even_lengths(
            self.nbr_channels(),
            self.output_frames_max(),
        ));
        buffer
    }

    /// Get the maximum number of input frames per channel the resampler could require
    #[verifier::when_used_as_spec(input_frames_max_spec)]
    fn input_frames_max(&self) -> (frames: usize)
        requires
            self.wf(),
        ensures
            frames == self.input_frames_max_spec(),
    ;

    /// Get the number of frames per channel needed for the next call to
    /// [process_into_buffer](Resampler::process_into_buffer) or [process](Resampler::process)
    ///
    /// These are never more than the frames that
    /// [input_frames_max](Resampler::input_frames_max) names, so a buffer from
    /// [input_buffer_allocate](Resampler::input_buffer_allocate) holds them.
    #[verifier::when_used_as_spec(input_frames_next_spec)]
    fn input_frames_next(&self) -> (frames: usize)
        requires
            self.wf(),
        ensures
            frames == self.input_frames_next_spec(),
            frames <= self.input_frames_max_spec(),
    ;

    /// Get the maximum number of channels this Resampler is configured for
    #[verifier::when_used_as_spec(nbr_channels_spec)]
    fn nbr_channels(&self) -> (channels: usize)
        requires
            self.wf(),
        ensures
            channels == self.nbr_channels_spec(),
    ;

    /// Get the max number of output frames per channel
    #[verifier::when_used_as_spec(output_frames_max_spec)]
    fn output_frames_max(&self) -> (frames: usize)
        requires
            self.wf(),
        ensures
            frames == self.output_frames_max_spec(),
    ;

    /// Get the number of frames per channel that will be output from the next call to
    /// [process_into_buffer](Resampler::process_into_buffer) or [process](Resampler::process)
    ///
    /// These are never more than the frames that
    /// [output_frames_max](Resampler::output_frames_max) names, so a buffer from
    /// [output_buffer_allocate](Resampler::output_buffer_allocate) has room for them.
    #[verifier::when_used_as_spec(output_frames_next_spec)]
    fn output_frames_next(&self) -> (frames: usize)
        requires
            self.wf(),
        ensures
            frames == self.output_frames_next_spec(),
            frames <= self.output_frames_max_spec(),
    ;

    /// Update the resample ratio
    ///
    /// For asynchronous resamplers, the ratio must be within
    /// `original / maximum` to `original * maximum`, where the original and maximum are the
    /// resampling ratios that were provided to the constructor. Trying to set the ratio
    /// outside these bounds will return
    /// [ResampleError::RatioOutOfBounds](crate::error::ResampleError::RatioOutOfBounds).
    ///
    /// For synchronous resamplers, this will always return
    /// [ResampleError::SyncNotAdjustable](crate::error::ResampleError::SyncNotAdjustable).
    ///
    /// If the argument `ramp` is set to true, the ratio will be ramped from the old to the new value
    /// during processing of the next chunk. This allows smooth transitions from one ratio to another.
    /// If `ramp` is false, the new ratio will be applied from the start of the next chunk.
    ///
    /// Where an error is returned the resampler has not changed.
    fn set_resample_ratio(&mut self, new_ratio: T, ramp: bool) -> (result: ResampleResult<(), T>)
        where Self: Sized
        requires
            old(self).wf(),
        ensures
            final(self).wf(),
            final(self).nbr_channels() == old(self).nbr_channels(),
            final(self).input_frames_max() == old(self).input_frames_max(),
            final(self).output_frames_max() == old(self).output_frames_max(),
            match old(self).ratio_fault(new_ratio) {
                Some(error) => result == Err::<(), ResampleError<T>>(error) && *final(self) == *old(
                    self,
                ),
                None => result is Ok && old(self).turns_to(new_ratio, ramp, *final(self)),
            },
    ;

    /// Update the resample ratio as a factor relative to the original one
    ///
    /// For asynchronous resamplers, the relative ratio must be within
    /// `1 / maximum` to `maximum`, where maximum is the maximum
    /// resampling ratio that was provided to the constructor. Trying to set the ratio
    /// outside these bounds will return
    /// [ResampleError::RatioOutOfBounds](crate::error::ResampleError::RatioOutOfBounds).
    ///
    /// Higher ratios above 1.0 slow down the output and lower the pitch. Lower ratios
    /// below 1.0 speed up the output and raise the pitch.
    ///
    /// For synchronous resamplers, this will always return
    /// [ResampleError::SyncNotAdjustable](crate::error::ResampleError::SyncNotAdjustable).
    ///
    /// Where an error is returned the resampler has not changed.
    fn set_resample_ratio_relative(&mut self, rel_ratio: T, ramp: bool) -> (result: ResampleResult<
        (),
        T,
    >) where Self: Sized
        requires
            old(self).wf(),
        ensures
            final(self).wf(),
            final(self).nbr_channels() == old(self).nbr_channels(),
            final(self).input_frames_max() == old(self).input_frames_max(),
            final(self).output_frames_max() == old(self).output_frames_max(),
            match old(self).relative_ratio_fault(rel_ratio) {
                Some(error) => result == Err::<(), ResampleError<T>>(error) && *final(self) == *old(
                    self,
                ),
                None => result is Ok && old(self).turns_relative_to(rel_ratio, ramp, *final(self)),
            },
    ;

    /// Reset the resampler state and clear all internal buffers.
    fn reset(&mut self) where Self: Sized
        requires
            old(self).wf(),
        ensures
            final(self).wf(),
            final(self).nbr_channels() == old(self).nbr_channels(),
            final(self).input_frames_max() == old(self).input_frames_max(),
            final(self).output_frames_max() == old(self).output_frames_max(),
            old(self).resets_to(*final(self)),
    ;
}

} // verus!
