//! An audio sample rate conversion library.
//!
//! The resamplers process audio in chunks. The ratio between the input and
//! output sample rates is completely free and can be changed while the
//! resampler runs. [`SincFixedIn`] takes a fixed number of input frames and
//! returns a variable number of output frames; [`SincFixedOut`] does the
//! opposite. Both are band-limited: they interpolate with windowed sinc
//! kernels, and between the kernels of a table with a polynomial.
//!
//! Input and output data is stored non-interleaved, one `Vec` of samples for
//! each channel. A resampler allocates when it is built and when it is asked
//! for a new buffer, and not while it processes into a buffer that it is given.
//!
//! The samples are of any type that has the arithmetic of [`Sample`]. The
//! library is verified for every such type: its contracts say which
//! operations of the sample type make up each result, and so hold whatever
//! the rounding of that type is.
//!
//! A frame comes out of a resampler half the length of a kernel after the
//! input that it belongs to.

pub mod asynchro_sinc;
pub mod cursor;
pub mod error;
pub mod history;
pub mod interpolation;
pub mod resampler;
pub mod sample;
pub mod sinc;
pub mod validate;
pub mod windows;

pub use crate::asynchro_sinc::{SincFixedIn, SincFixedOut, SincInterpolationParameters, SincModel};
pub use crate::error::{ResampleError, ResampleResult, ResamplerConstructionError};
pub use crate::interpolation::SincInterpolationType;
pub use crate::resampler::Resampler;
pub use crate::sample::Sample;
pub use crate::validate::{update_mask_from_buffers, validate_buffers};
pub use crate::windows::{
    blackman, blackman_harris, calculate_cutoff, hann, make_window, WindowFunction,
};
