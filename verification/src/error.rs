use vstd::prelude::*;

verus! {

/// The error type returned when constructing a resampler.
#[derive(Debug)]
#[allow(inconsistent_fields)]
pub enum ResamplerConstructionError<T> {
    /// The sinc length is not a positive multiple of `required_multiple`.
    InvalidSincLength { got: usize, required_multiple: usize },
    /// The resampling ratio is not greater than zero.
    InvalidRatio { got: T },
    /// The maximum relative ratio is not at least one. `got` is the value
    /// that was given and `max` repeats it as the upper end of the range of
    /// relative ratios, `1 / max` to `max`, which holds no ratio at all then.
    InvalidRelativeRatio { got: T, max: T },
    /// The oversampling factor is zero.
    InvalidOversamplingFactor { got: usize },
}

/// The error type used by the processing methods of a resampler.
#[derive(Debug)]
#[allow(inconsistent_fields)]
pub enum ResampleError<T> {
    /// The input has another number of channels than the resampler.
    WrongNumberOfInputChannels { expected: usize, actual: usize },
    /// The output has another number of channels than the resampler.
    WrongNumberOfOutputChannels { expected: usize, actual: usize },
    /// The mask has another number of channels than the resampler.
    WrongNumberOfMaskChannels { expected: usize, actual: usize },
    /// A channel of the input holds fewer frames than the resampler needs.
    InsufficientInputBufferSize { expected: usize, actual: usize },
    /// A channel of the output has room for fewer frames than the resampler writes.
    InsufficientOutputBufferSize { expected: usize, actual: usize },
    /// The ratio `got`, relative to the original one, is outside `min` to `max`.
    RatioOutOfBounds { got: T, min: T, max: T },
    /// The resampling ratio of a synchronous resampler cannot be changed.
    SyncNotAdjustable,
}

/// A result with a [`ResampleError`] over samples of type `T` as its error.
pub type ResampleResult<V, T> = Result<V, ResampleError<T>>;

} // verus!
