use vstd::prelude::*;
use crate::sample::Sample;
use crate::windows::{make_window, window_point, WindowFunction};

verus! {

/// The cardinal sine `sin(pi x) / (pi x)`, which is one where `x` is zero.
/// A value counts as zero when it is both at most and at least zero.
pub open spec fn sinc_value<T: Sample>(value: T) -> T {
    if value.le(T::zero()) && T::zero().le(value) {
        T::one()
    } else {
        value.times(T::pi()).sin().over(value.times(T::pi()))
    }
}

/// Tap `tap` of the kernel of phase `phase / factor`:
/// `fc * sinc(fc * ((tap - npoints / 2) + phase / factor)) * w[tap]`,
/// where `w` is the window `windowfunc` of length `npoints`.
pub open spec fn sinc_point<T: Sample>(
    phase: usize,
    tap: usize,
    npoints: usize,
    factor: usize,
    f_cutoff: T,
    windowfunc: WindowFunction,
) -> T {
    let offset = T::coerce(tap).minus(T::coerce(npoints / 2)).plus(
        T::coerce(phase).over(T::coerce(factor)),
    );
    f_cutoff.times(sinc_value(f_cutoff.times(offset))).times(
        window_point::<T>(windowfunc, tap, npoints),
    )
}

/// Whether `sincs` is the table of `factor` windowed sinc kernels of
/// `npoints` taps each, for the cutoff `f_cutoff` and the window `windowfunc`.
pub open spec fn is_sinc_table<T: Sample>(
    sincs: Seq<Vec<T>>,
    npoints: usize,
    factor: usize,
    f_cutoff: T,
    windowfunc: WindowFunction,
) -> bool {
    &&& sincs.len() == factor
    &&& forall|phase: int|
        0 <= phase < factor ==> (#[trigger] sincs[phase])@.len() == npoints
    &&& forall|phase: int, tap: int|
        0 <= phase < factor && 0 <= tap < npoints ==> (#[trigger] sincs[phase]@[tap])
            == sinc_point::<T>(phase as usize, tap as usize, npoints, factor, f_cutoff, windowfunc)
}

/// Helper function: sinc(x) = sin(pi*x)/(pi*x).
pub fn sinc<T: Sample>(value: T) -> (y: T)
    ensures
        y == sinc_value(value),
{
    let zero = T::zero();
    if value.le(zero) && zero.le(value) {
        T::one()
    } else {
        let angle = value.times(T::pi());
        angle.sin().over(angle)
    }
}

/// One kernel of the table: the windowed sinc of phase `phase / factor`.
fn make_sinc_row<T: Sample>(
    phase: usize,
    npoints: usize,
    factor: usize,
    f_cutoff: T,
    window: &Vec<T>,
    windowfunc: WindowFunction,
) -> (row: Vec<T>)
    requires
        window@.len() == npoints,
        forall|x: int|
            0 <= x < npoints ==> window@[x] == window_point::<T>(windowfunc, x as usize, npoints),
    ensures
        row@.len() == npoints,
        forall|tap: int|
            0 <= tap < npoints ==> row@[tap] == sinc_point::<T>(
                phase,
                tap as usize,
                npoints,
                factor,
                f_cutoff,
                windowfunc,
            ),
{
    let mut row: Vec<T> = Vec::with_capacity(npoints);
    let centre = T::coerce(npoints / 2);
    let shift = T::coerce(phase).over(T::coerce(factor));
    let mut tap: usize = 0;
    while tap < npoints
        invariant
            tap <= npoints,
            row@.len() == tap,
            window@.len() == npoints,
            centre == T::coerce((npoints / 2) as usize),
            shift == T::coerce(phase).over(T::coerce(factor)),
            forall|x: int|
                0 <= x < npoints ==> window@[x] == window_point::<T>(
                    windowfunc,
                    x as usize,
                    npoints,
                ),
            forall|i: int|
                0 <= i < tap ==> row@[i] == sinc_point::<T>(
                    phase,
                    i as usize,
                    npoints,
                    factor,
                    f_cutoff,
                    windowfunc,
                ),
        decreases npoints - tap,
    {
        let offset = T::coerce(tap).minus(centre).plus(shift);
        let value = f_cutoff.times(sinc(f_cutoff.times(offset))).times(window[tap]);
        row.push(value);
        tap += 1;
    }
    row
}

/// Helper function. Make a set of windowed sincs.
///
/// The table has `factor` kernels of `npoints` taps. Kernel `k` is the sinc
/// of cutoff `f_cutoff`, advanced by `k / factor` of a sample and tapered by
/// the window `windowfunc`.
pub fn make_sincs<T: Sample>(
    npoints: usize,
    factor: usize,
    f_cutoff: T,
    windowfunc: WindowFunction,
) -> (sincs: Vec<Vec<T>>)
    ensures
        is_sinc_table(sincs@, npoints, factor, f_cutoff, windowfunc),
{
    let window = make_window::<T>(npoints, windowfunc);
    let mut sincs: Vec<Vec<T>> = Vec::with_capacity(factor);
    let mut phase: usize = 0;
    while phase < factor
        invariant
            phase <= factor,
            sincs@.len() == phase,
            window@.len() == npoints,
            forall|x: int|
                0 <= x < npoints ==> window@[x] == window_point::<T>(
                    windowfunc,
                    x as usize,
                    npoints,
                ),
            forall|p: int| 0 <= p < phase ==> (#[trigger] sincs@[p])@.len() == npoints,
            forall|p: int, tap: int|
                0 <= p < phase && 0 <= tap < npoints ==> (#[trigger] sincs@[p]@[tap])
                    == sinc_point::<T>(
                    p as usize,
                    tap as usize,
                    npoints,
                    factor,
                    f_cutoff,
                    windowfunc,
                ),
        decreases factor - phase,
    {
        let row = make_sinc_row(phase, npoints, factor, f_cutoff, &window, windowfunc);
        sincs.push(row);
        phase += 1;
    }
    sincs
}

} // verus!
