use vstd::prelude::*;
use crate::error::{ResampleError, ResampleResult};
use crate::sample::Sample;

verus! {

/// The number of frames that each channel of `wave` holds.
pub open spec fn channel_lengths<T>(wave: Seq<Vec<T>>) -> Seq<nat> {
    Seq::new(wave.len(), |c: int| wave[c]@.len())
}

/// The samples of each channel of `wave`.
pub open spec fn channel_frames<T>(wave: Seq<Vec<T>>) -> Seq<Seq<T>> {
    Seq::new(wave.len(), |c: int| wave[c]@)
}

/// The mask that a call works with: the one that was given, or, where none
/// was given, one that marks each of the `channels` channels as active.
pub open spec fn mask_or_all(mask: Option<&[bool]>, channels: usize) -> Seq<bool> {
    match mask {
        Some(given) => given@,
        None => Seq::new(channels as nat, |c: int| true),
    }
}

/// Whether `channel` is the first channel that holds fewer than `min_len` frames.
pub open spec fn first_short_channel(lengths: Seq<nat>, min_len: usize, channel: int) -> bool {
    &&& 0 <= channel < lengths.len()
    &&& lengths[channel] < min_len
    &&& forall|c: int| 0 <= c < channel ==> lengths[c] >= min_len
}

/// Whether every channel holds at least `min_len` frames.
pub open spec fn all_channels_hold(lengths: Seq<nat>, min_len: usize) -> bool {
    forall|c: int| 0 <= c < lengths.len() ==> lengths[c] >= min_len
}

/// Whether input, mask and output have the shape that a resampler of
/// `channels` channels needs to read `min_input_len` frames and write
/// `min_output_len`. Each buffer is given by the lengths of its channels, the
/// mask by its own length.
pub open spec fn buffers_fit(
    input: Seq<nat>,
    output: Seq<nat>,
    mask_len: nat,
    channels: usize,
    min_input_len: usize,
    min_output_len: usize,
) -> bool {
    &&& input.len() == channels
    &&& mask_len == channels
    &&& all_channels_hold(input, min_input_len)
    &&& output.len() == channels
    &&& all_channels_hold(output, min_output_len)
}

/// Whether `error` names the first thing that is wrong with the shape of the
/// buffers, the checks taken in this order: the number of input channels, the
/// length of the mask, the frames of each input channel, the number of output
/// channels, the frames of each output channel. For a channel that is too
/// short, `actual` is the length of the first such channel.
pub open spec fn first_shape_error<T>(
    input: Seq<nat>,
    output: Seq<nat>,
    mask_len: nat,
    channels: usize,
    min_input_len: usize,
    min_output_len: usize,
    error: ResampleError<T>,
) -> bool {
    match error {
        ResampleError::WrongNumberOfInputChannels { expected, actual } => {
            &&& input.len() != channels
            &&& expected == channels
            &&& actual == input.len()
        },
        ResampleError::WrongNumberOfMaskChannels { expected, actual } => {
            &&& input.len() == channels
            &&& mask_len != channels
            &&& expected == channels
            &&& actual == mask_len
        },
        ResampleError::InsufficientInputBufferSize { expected, actual } => {
            &&& input.len() == channels
            &&& mask_len == channels
            &&& expected == min_input_len
            &&& exists|c: int|
                first_short_channel(input, min_input_len, c) && actual == #[trigger] input[c]
        },
        ResampleError::WrongNumberOfOutputChannels { expected, actual } => {
            &&& input.len() == channels
            &&& mask_len == channels
            &&& all_channels_hold(input, min_input_len)
            &&& output.len() != channels
            &&& expected == channels
            &&& actual == output.len()
        },
        ResampleError::InsufficientOutputBufferSize { expected, actual } => {
            &&& input.len() == channels
            &&& mask_len == channels
            &&& all_channels_hold(input, min_input_len)
            &&& output.len() == channels
            &&& expected == min_output_len
            &&& exists|c: int|
                first_short_channel(output, min_output_len, c) && actual == #[trigger] output[c]
        },
        _ => false,
    }
}

/// The lengths of `channels` channels of `frames` frames each.
pub open spec fn even_lengths(channels: usize, frames: usize) -> Seq<nat> {
    Seq::new(channels as nat, |c: int| frames as nat)
}

/// What is wrong with the shape of an input of `input_channels` channels of
/// `input_frames` frames each, a mask of `mask_len` marks and an output of
/// `output_channels` channels of `output_frames` frames each, if anything is.
/// The checks are those of [`first_shape_error`], in the same order. The
/// frames are looked at even where a buffer has no channel to hold them.
pub open spec fn uniform_fault<T>(
    input_channels: usize,
    input_frames: usize,
    mask_len: usize,
    output_channels: usize,
    output_frames: usize,
    channels: usize,
    min_input_len: usize,
    min_output_len: usize,
) -> Option<ResampleError<T>> {
    if input_channels != channels {
        Some(ResampleError::WrongNumberOfInputChannels { expected: channels, actual: input_channels })
    } else if mask_len != channels {
        Some(ResampleError::WrongNumberOfMaskChannels { expected: channels, actual: mask_len })
    } else if input_frames < min_input_len {
        Some(
            ResampleError::InsufficientInputBufferSize {
                expected: min_input_len,
                actual: input_frames,
            },
        )
    } else if output_channels != channels {
        Some(
            ResampleError::WrongNumberOfOutputChannels {
                expected: channels,
                actual: output_channels,
            },
        )
    } else if output_frames < min_output_len {
        Some(
            ResampleError::InsufficientOutputBufferSize {
                expected: min_output_len,
                actual: output_frames,
            },
        )
    } else {
        None
    }
}

/// For a resampler that has channels, buffers with the same number of frames
/// in every channel are judged by their counts as they are judged channel by
/// channel: both ways find the same to be wrong, or nothing.
pub proof fn law_uniform_buffers<T>(
    input_channels: usize,
    input_frames: usize,
    mask_len: usize,
    output_channels: usize,
    output_frames: usize,
    channels: usize,
    min_input_len: usize,
    min_output_len: usize,
)
    requires
        channels >= 1,
    ensures
        uniform_fault::<T>(
            input_channels,
            input_frames,
            mask_len,
            output_channels,
            output_frames,
            channels,
            min_input_len,
            min_output_len,
        ) is None <==> buffers_fit(
            even_lengths(input_channels, input_frames),
            even_lengths(output_channels, output_frames),
            mask_len as nat,
            channels,
            min_input_len,
            min_output_len,
        ),
        uniform_fault::<T>(
            input_channels,
            input_frames,
            mask_len,
            output_channels,
            output_frames,
            channels,
            min_input_len,
            min_output_len,
        ) matches Some(error) ==> first_shape_error(
            even_lengths(input_channels, input_frames),
            even_lengths(output_channels, output_frames),
            mask_len as nat,
            channels,
            min_input_len,
            min_output_len,
            error,
        ),
{
    let input = even_lengths(input_channels, input_frames);
    let output = even_lengths(output_channels, output_frames);
    if input_channels == channels {
        assert(input[0] == input_frames);
        if input_frames < min_input_len {
            assert(first_short_channel(input, min_input_len, 0));
        }
        if output_channels == channels {
            assert(output[0] == output_frames);
            if output_frames < min_output_len {
                assert(first_short_channel(output, min_output_len, 0));
            }
        }
    }
}

/// Helper to make a mask where all channels are marked as active.
pub fn update_mask_from_buffers(mask: &mut [bool])
    ensures
        final(mask)@.len() == old(mask)@.len(),
        forall|c: int| 0 <= c < final(mask)@.len() ==> final(mask)@[c],
{
    let channels = mask.len();
    let mut c: usize = 0;
    while c < channels
        invariant
            c <= channels,
            mask@.len() == channels,
            forall|i: int| 0 <= i < c ==> mask@[i],
        decreases channels - c,
    {
        mask[c] = true;
        c += 1;
    }
}

/// The index of the first channel of `wave` that holds fewer than `min_len`
/// frames, if there is one.
fn find_short_channel<T>(wave: &[Vec<T>], min_len: usize) -> (found: Option<usize>)
    ensures
        match found {
            Some(c) => first_short_channel(channel_lengths(wave@), min_len, c as int),
            None => all_channels_hold(channel_lengths(wave@), min_len),
        },
{
    let mut c: usize = 0;
    while c < wave.len()
        invariant
            c <= wave@.len(),
            forall|i: int| 0 <= i < c ==> channel_lengths(wave@)[i] >= min_len,
        decreases wave@.len() - c,
    {
        if wave[c].len() < min_len {
            return Some(c);
        }
        c += 1;
    }
    None
}

/// Check that input, output and mask have the shape that a resampler of
/// `channels` channels needs to read `min_input_len` frames from each channel
/// and to write `min_output_len`, and name the first thing that is wrong if
/// they do not.
pub fn validate_buffers<T>(
    wave_in: &[Vec<T>],
    wave_out: &[Vec<T>],
    mask: &[bool],
    channels: usize,
    min_input_len: usize,
    min_output_len: usize,
) -> (result: ResampleResult<(), T>)
    ensures
        result is Ok <==> buffers_fit(
            channel_lengths(wave_in@),
            channel_lengths(wave_out@),
            mask@.len(),
            channels,
            min_input_len,
            min_output_len,
        ),
        result matches Err(error) ==> first_shape_error(
            channel_lengths(wave_in@),
            channel_lengths(wave_out@),
            mask@.len(),
            channels,
            min_input_len,
            min_output_len,
            error,
        ),
{
    if wave_in.len() != channels {
        return Err(
            ResampleError::WrongNumberOfInputChannels { expected: channels, actual: wave_in.len() },
        );
    }
    if mask.len() != channels {
        return Err(
            ResampleError::WrongNumberOfMaskChannels { expected: channels, actual: mask.len() },
        );
    }
    if let Some(c) = find_short_channel(wave_in, min_input_len) {
        assert(channel_lengths(wave_in@)[c as int] == wave_in@[c as int]@.len());
        return Err(
            ResampleError::InsufficientInputBufferSize {
                expected: min_input_len,
                actual: wave_in[c].len(),
            },
        );
    }
    if wave_out.len() != channels {
        return Err(
            ResampleError::WrongNumberOfOutputChannels {
                expected: channels,
                actual: wave_out.len(),
            },
        );
    }
    if let Some(c) = find_short_channel(wave_out, min_output_len) {
        assert(channel_lengths(wave_out@)[c as int] == wave_out@[c as int]@.len());
        return Err(
            ResampleError::InsufficientOutputBufferSize {
                expected: min_output_len,
                actual: wave_out[c].len(),
            },
        );
    }
    Ok(())
}

/// Check the shape of buffers that have the same number of frames in all
/// their channels, by their counts: that an input of `input_channels`
/// channels of `input_frames` frames, a mask of `mask_len` marks and an output
/// of `output_channels` channels of `output_frames` frames serve a resampler of
/// `channels` channels that reads `min_input_len` frames and writes
/// `min_output_len`. The first thing that is wrong is named.
pub fn validate_shape<T>(
    input_channels: usize,
    input_frames: usize,
    mask_len: usize,
    output_channels: usize,
    output_frames: usize,
    channels: usize,
    min_input_len: usize,
    min_output_len: usize,
) -> (result: ResampleResult<(), T>)
    ensures
        result == (match uniform_fault::<T>(
            input_channels,
            input_frames,
            mask_len,
            output_channels,
            output_frames,
            channels,
            min_input_len,
            min_output_len,
        ) {
            Some(error) => Err::<(), ResampleError<T>>(error),
            None => Ok::<(), ResampleError<T>>(()),
        }),
{
    if input_channels != channels {
        return Err(
            ResampleError::WrongNumberOfInputChannels { expected: channels, actual: input_channels },
        );
    }
    if mask_len != channels {
        return Err(
            ResampleError::WrongNumberOfMaskChannels { expected: channels, actual: mask_len },
        );
    }
    if input_frames < min_input_len {
        return Err(
            ResampleError::InsufficientInputBufferSize {
                expected: min_input_len,
                actual: input_frames,
            },
        );
    }
    if output_channels != channels {
        return Err(
            ResampleError::WrongNumberOfOutputChannels {
                expected: channels,
                actual: output_channels,
            },
        );
    }
    if output_frames < min_output_len {
        return Err(
            ResampleError::InsufficientOutputBufferSize {
                expected: min_output_len,
                actual: output_frames,
            },
        );
    }
    Ok(())
}

/// A buffer of `channels` channels of `frames` frames each, all of them zero.
pub fn make_buffer<T: Sample>(channels: usize, frames: usize) -> (buffer: Vec<Vec<T>>)
    ensures
        buffer@.len() == channels,
        forall|c: int| 0 <= c < channels ==> (#[trigger] buffer@[c])@.len() == frames,
        forall|c: int, i: int|
            0 <= c < channels && 0 <= i < frames ==> (#[trigger] buffer@[c]@[i]) == T::zero(),
{
    let mut buffer: Vec<Vec<T>> = Vec::with_capacity(channels);
    let mut c: usize = 0;
    while c < channels
        invariant
            c <= channels,
            buffer@.len() == c,
            forall|k: int| 0 <= k < c ==> (#[trigger] buffer@[k])@.len() == frames,
            forall|k: int, i: int|
                0 <= k < c && 0 <= i < frames ==> (#[trigger] buffer@[k]@[i]) == T::zero(),
        decreases channels - c,
    {
        let mut channel: Vec<T> = Vec::with_capacity(frames);
        let mut i: usize = 0;
        while i < frames
            invariant
                i <= frames,
                channel@.len() == i,
                forall|j: int| 0 <= j < i ==> channel@[j] == T::zero(),
            decreases frames - i,
        {
            channel.push(T::zero());
            i += 1;
        }
        buffer.push(channel);
        c += 1;
    }
    buffer
}

/// Sample `frame` of channel `channel` after `from` has been copied over a
/// buffer that held `before` there: the sample of `from`, where `from` has
/// that channel and that frame, and `before` elsewhere.
pub open spec fn copied_sample<T>(from: Seq<Vec<T>>, before: T, channel: int, frame: int) -> T {
    if channel < from.len() && frame < from[channel]@.len() {
        from[channel]@[frame]
    } else {
        before
    }
}

/// Copy `from` into `to`: of the channels that both have, the frames that both have.
pub fn copy_buffer<T: Copy>(from: &[Vec<T>], to: &mut Vec<Vec<T>>)
    ensures
        final(to)@.len() == old(to)@.len(),
        forall|c: int|
            0 <= c < old(to)@.len() ==> (#[trigger] final(to)@[c])@.len() == old(to)@[c]@.len(),
        forall|c: int, i: int|
            0 <= c < old(to)@.len() && 0 <= i < old(to)@[c]@.len() ==> (
            #[trigger] final(to)@[c]@[i]) == copied_sample(from@, old(to)@[c]@[i], c, i),
{
    let channels = if from.len() <= to.len() {
        from.len()
    } else {
        to.len()
    };
    let mut c: usize = 0;
    while c < channels
        invariant
            c <= channels,
            channels <= from@.len(),
            channels <= to@.len(),
            to@.len() == old(to)@.len(),
            forall|k: int| 0 <= k < to@.len() ==> (#[trigger] to@[k])@.len() == old(to)@[k]@.len(),
            forall|k: int, i: int|
                0 <= k < c && 0 <= i < to@[k]@.len() ==> (#[trigger] to@[k]@[i]) == copied_sample(
                    from@,
                    old(to)@[k]@[i],
                    k,
                    i,
                ),
            forall|k: int| c <= k < to@.len() ==> (#[trigger] to@[k]) == old(to)@[k],
        decreases channels - c,
    {
        let frames = if from[c].len() <= to[c].len() {
            from[c].len()
        } else {
            to[c].len()
        };
        let ghost before = to@;
        let mut i: usize = 0;
        while i < frames
            invariant
                i <= frames,
                c < channels,
                channels <= from@.len(),
                channels <= to@.len(),
                frames <= from@[c as int]@.len(),
                frames <= to@[c as int]@.len(),
                to@.len() == before.len(),
                to@[c as int]@.len() == before[c as int]@.len(),
                forall|k: int| 0 <= k < to@.len() && k != c ==> (#[trigger] to@[k]) == before[k],
                forall|j: int| 0 <= j < i ==> to@[c as int]@[j] == from@[c as int]@[j],
                forall|j: int|
                    i <= j < to@[c as int]@.len() ==> to@[c as int]@[j] == before[c as int]@[j],
            decreases frames - i,
        {
            to[c][i] = from[c][i];
            i += 1;
        }
        c += 1;
    }
}

} // verus!
