use vstd::prelude::*;
use crate::sample::Sample;

verus! {

/// Interpolation methods that can be selected. For asynchronous interpolation where the
/// ratio between input and output sample rates can be any number, it is not possible to
/// pre-calculate all the needed interpolation filters.
/// Instead they have to be computed as needed, which becomes impractical since the
/// sincs are very expensive to generate in terms of cpu time.
/// It is more efficient to combine the sinc filters with some other interpolation technique.
/// Then, sinc filters are used to provide a fixed number of interpolated points between input samples,
/// and then, the new value is calculated by interpolation between those points.
#[derive(Debug, Clone, Copy)]
pub enum SincInterpolationType {
    /// For cubic interpolation, the four nearest intermediate points are calculated
    /// using sinc interpolation.
    /// Then, a cubic polynomial is fitted to these points, and is used to calculate the new sample value.
    /// The computation time is approximately twice as long as that of linear interpolation,
    /// but it requires much fewer intermediate points for a good result.
    Cubic,
    /// For quadratic interpolation, the three nearest intermediate points are calculated
    /// using sinc interpolation.
    /// Then, a quadratic polynomial is fitted to these points, and is used to calculate the new sample value.
    /// The computation time lies approximately halfway between that of linear and quadratic interpolation.
    Quadratic,
    /// For linear interpolation, the new sample value is calculated by linear interpolation
    /// between the two nearest points.
    /// This requires two intermediate points to be calculated using sinc interpolation,
    /// and the output is obtained by taking a weighted average of these two points.
    /// This is relatively fast, but needs a large number of intermediate points to
    /// push the resampling artefacts below the noise floor.
    Linear,
    /// The Nearest mode doesn't do any interpolation, but simply picks the nearest intermediate point.
    /// This is useful when the nearest point is actually the correct one, for example when upsampling by a factor 2,
    /// like 48kHz->96kHz.
    /// Then, when setting the oversampling_factor to 2 and using Nearest mode,
    /// no unnecessary computations are performed and the result is equivalent to that of synchronous resampling.
    /// This also works for other ratios that can be expressed by a fraction. For 44.1kHz -> 48 kHz,
    /// setting oversampling_factor to 160 gives the desired result (since 48kHz = 160/147 * 44.1kHz).
    Nearest,
}

/// The inner product of the first `taps` values of `row` and of `hist`,
/// summed from the left, starting from zero.
pub open spec fn dot_spec<T: Sample>(row: Seq<T>, hist: Seq<T>, taps: nat) -> T
    decreases taps,
{
    if taps == 0 {
        T::zero()
    } else {
        dot_spec(row, hist, (taps - 1) as nat).plus(row[taps - 1].times(hist[taps - 1]))
    }
}

/// The line through `y0` at 0 and `y1` at 1, taken at `x`.
pub open spec fn linear_value<T: Sample>(x: T, y0: T, y1: T) -> T {
    y0.plus(x.times(y1.minus(y0)))
}

/// The parabola through `y0` at 0, `y1` at 1 and `y2` at 2, taken at `x`:
/// `0.5 * (a0 + x * (a1 + a2 * x))` with `a0 = 2 y0`, `a1 = 4 y1 - 3 y0 - y2`
/// and `a2 = y0 - 2 y1 + y2`.
pub open spec fn quadratic_value<T: Sample>(x: T, y0: T, y1: T, y2: T) -> T {
    let a2 = y0.minus(T::coerce(2).times(y1)).plus(y2);
    let a1 = T::coerce(4).times(y1).minus(T::coerce(3).times(y0)).minus(y2);
    let a0 = T::coerce(2).times(y0);
    T::decimal(5, 1).times(a0.plus(x.times(a1.plus(a2.times(x)))))
}

/// The cubic through `y0` at -1, `y1` at 0, `y2` at 1 and `y3` at 2, taken at
/// `x`: `a0 + a1 x + a2 x^2 + a3 x^3` with `a0 = y1`,
/// `a1 = y2 - y0 / 3 - y1 / 2 - y3 / 6`, `a2 = (y0 + y2) / 2 - y1` and
/// `a3 = (y1 - y2) / 2 + (y3 - y0) / 6`.
pub open spec fn cubic_value<T: Sample>(x: T, y0: T, y1: T, y2: T, y3: T) -> T {
    let half = T::decimal(5, 1);
    let third = T::one().over(T::coerce(3));
    let sixth = T::one().over(T::coerce(6));
    let a0 = y1;
    let a1 = y2.minus(third.times(y0)).minus(half.times(y1)).minus(sixth.times(y3));
    let a2 = half.times(y0.plus(y2)).minus(y1);
    let a3 = half.times(y1.minus(y2)).plus(sixth.times(y3.minus(y0)));
    let x2 = x.times(x);
    let x3 = x2.times(x);
    a0.plus(a1.times(x)).plus(a2.times(x2)).plus(a3.times(x3))
}

/// The inner product of two runs of samples over their common length,
/// summed from the left.
pub fn dot<T: Sample>(row: &[T], hist: &[T]) -> (sum: T)
    ensures
        sum == dot_spec(
            row@,
            hist@,
            if row@.len() <= hist@.len() {
                row@.len()
            } else {
                hist@.len()
            },
        ),
{
    let taps = if row.len() <= hist.len() {
        row.len()
    } else {
        hist.len()
    };
    let mut sum = T::zero();
    let mut i: usize = 0;
    while i < taps
        invariant
            i <= taps,
            taps <= row@.len(),
            taps <= hist@.len(),
            sum == dot_spec(row@, hist@, i as nat),
        decreases taps - i,
    {
        sum = sum.plus(row[i].times(hist[i]));
        i += 1;
    }
    sum
}

/// Linear interpolation between two points at x=0 and x=1.
pub fn interp_lin<T: Sample>(x: T, yvals: &[T; 2]) -> (y: T)
    ensures
        y == linear_value(x, yvals@[0], yvals@[1]),
{
    yvals[0].plus(x.times(yvals[1].minus(yvals[0])))
}

/// Quadratic interpolation through three points at x=0, x=1 and x=2.
pub fn interp_quad<T: Sample>(x: T, yvals: &[T; 3]) -> (y: T)
    ensures
        y == quadratic_value(x, yvals@[0], yvals@[1], yvals@[2]),
{
    let a2 = yvals[0].minus(T::coerce(2).times(yvals[1])).plus(yvals[2]);
    let a1 = T::coerce(4).times(yvals[1]).minus(T::coerce(3).times(yvals[0])).minus(yvals[2]);
    let a0 = T::coerce(2).times(yvals[0]);
    T::decimal(5, 1).times(a0.plus(x.times(a1.plus(a2.times(x)))))
}

/// Cubic interpolation through four points at x=-1, x=0, x=1 and x=2.
pub fn interp_cubic<T: Sample>(x: T, yvals: &[T; 4]) -> (y: T)
    ensures
        y == cubic_value(x, yvals@[0], yvals@[1], yvals@[2], yvals@[3]),
{
    let half = T::decimal(5, 1);
    let third = T::one().over(T::coerce(3));
    let sixth = T::one().over(T::coerce(6));
    let a0 = yvals[1];
    let a1 = yvals[2].minus(third.times(yvals[0])).minus(half.times(yvals[1])).minus(
        sixth.times(yvals[3]),
    );
    let a2 = half.times(yvals[0].plus(yvals[2])).minus(yvals[1]);
    let a3 = half.times(yvals[1].minus(yvals[2])).plus(sixth.times(yvals[3].minus(yvals[0])));
    let x2 = x.times(x);
    let x3 = x2.times(x);
    a0.plus(a1.times(x)).plus(a2.times(x2)).plus(a3.times(x3))
}

/// Whether `sincs` can serve as a table of kernels: it has at least one
/// kernel, all of its kernels have as many taps as the first, and the number
/// of kernels plus two fits in a `usize`.
pub open spec fn is_table<T>(sincs: Seq<Vec<T>>) -> bool {
    &&& 0 < sincs.len()
    &&& sincs.len() + 2 <= usize::MAX
    &&& forall|k: int| 0 <= k < sincs.len() ==> (#[trigger] sincs[k])@.len() == sincs[0]@.len()
}

/// The number of taps of the kernels of a table.
pub open spec fn taps_of<T>(sincs: Seq<Vec<T>>) -> nat {
    sincs[0]@.len()
}

/// The value of the signal at the phase `phase` of the table, read at
/// position `at` of `hist`.
///
/// Kernel `k` of the table is advanced by `k / factor` of a sample, where
/// `factor` is the number of kernels. A phase from 0 to `factor - 1` is the
/// kernel of that number on the run of `hist` that starts at `at + 1`. A phase
/// of `factor` or more is the phase `factor` less, read one sample earlier.
pub open spec fn tap_value<T: Sample>(sincs: Seq<Vec<T>>, hist: Seq<T>, at: int, phase: int) -> T {
    let factor = sincs.len() as int;
    let row = sincs[phase % factor]@;
    let start = at + 1 - phase / factor;
    dot_spec(row, hist.subrange(start, start + row.len()), row.len())
}

/// The position in the table, in kernels, of a frame that lies `fraction` of a
/// sample past a position of the history: `(1 - fraction) * factor`.
pub open spec fn phase_value<T: Sample>(fraction: T, factor: int) -> T {
    T::one().minus(fraction).times(T::coerce(factor as usize))
}

/// `value`, held down to `cap`.
pub open spec fn capped(value: usize, cap: usize) -> usize {
    if value > cap {
        cap
    } else {
        value
    }
}

/// The value of the signal `fraction` of a sample past position `at` of `hist`.
///
/// With `y` the position in the table ([`phase_value`]), `k` the whole part of
/// `y`, held down to the number of kernels, and `x = y - k`:
/// - `Nearest` takes the kernel nearest to `y`, which is the whole part of `y + 0.5`;
/// - `Linear` takes the line through the kernels `k` and `k + 1` at `x`;
/// - `Quadratic` takes the parabola through the kernels `k`, `k + 1` and `k + 2` at `x`;
/// - `Cubic` takes the cubic through the kernels `k - 1` to `k + 2` at `x`,
///   but for `k = 0`, where it takes the cubic through the kernels 0 to 3 at
///   `x - 1`.
///
/// No kernel is read later than at `at + 1`, so the newest sample that a
/// frame depends on lies half a kernel after it. The kernel before kernel 0
/// would be the last kernel of the table read at `at + 2`, one sample later
/// than that. This is why the cubic of the frames within one kernel of the
/// next sample keeps to the kernels from 0 on: it is the choice of the four
/// neighbouring kernels that gives way there, not the place of the frame in
/// the input and not the count of the frames.
pub open spec fn interpolated<T: Sample>(
    sincs: Seq<Vec<T>>,
    interpolation: SincInterpolationType,
    hist: Seq<T>,
    at: int,
    fraction: T,
) -> T {
    let factor = sincs.len() as int;
    let y = phase_value(fraction, factor);
    let k = capped(y.floor(), factor as usize) as int;
    let x = y.minus(T::coerce(k as usize));
    match interpolation {
        SincInterpolationType::Nearest => {
            let nearest = capped(y.plus(T::decimal(5, 1)).floor(), factor as usize);
            tap_value(sincs, hist, at, nearest as int)
        },
        SincInterpolationType::Linear => linear_value(
            x,
            tap_value(sincs, hist, at, k),
            tap_value(sincs, hist, at, k + 1),
        ),
        SincInterpolationType::Quadratic => quadratic_value(
            x,
            tap_value(sincs, hist, at, k),
            tap_value(sincs, hist, at, k + 1),
            tap_value(sincs, hist, at, k + 2),
        ),
        SincInterpolationType::Cubic => if k == 0 {
            cubic_value(
                x.minus(T::one()),
                tap_value(sincs, hist, at, 0),
                tap_value(sincs, hist, at, 1),
                tap_value(sincs, hist, at, 2),
                tap_value(sincs, hist, at, 3),
            )
        } else {
            cubic_value(
                x,
                tap_value(sincs, hist, at, k - 1),
                tap_value(sincs, hist, at, k),
                tap_value(sincs, hist, at, k + 1),
                tap_value(sincs, hist, at, k + 2),
            )
        },
    }
}

/// The part of a history that a frame at position `at` can depend on: from
/// two samples before `at` to the length of a kernel after it.
pub open spec fn reach_of<T>(sincs: Seq<Vec<T>>, hist: Seq<T>, at: int) -> Seq<T> {
    hist.subrange(at - 2, at + 1 + taps_of(sincs))
}

/// A kernel of a phase up to two past the end of the table reads nothing
/// outside the reach of its frame.
proof fn lemma_tap_within_reach<T: Sample>(
    sincs: Seq<Vec<T>>,
    first: Seq<T>,
    second: Seq<T>,
    at: int,
    phase: int,
)
    requires
        is_table(sincs),
        0 <= phase <= sincs.len() + 2,
        2 <= at,
        at + 1 + taps_of(sincs) <= first.len(),
        at + 1 + taps_of(sincs) <= second.len(),
        reach_of(sincs, first, at) == reach_of(sincs, second, at),
    ensures
        tap_value(sincs, first, at, phase) == tap_value(sincs, second, at, phase),
{
    let factor = sincs.len() as int;
    let taps = taps_of(sincs) as int;
    let back = phase / factor;
    assert(0 <= back <= 3) by (nonlinear_arith)
        requires
            back == phase / factor,
            0 < factor,
            0 <= phase <= factor + 2,
    ;
    assert(0 <= phase % factor < factor);
    assert(sincs[phase % factor]@.len() == taps);
    let start = at + 1 - back;
    assert(first.subrange(start, start + taps) =~= second.subrange(start, start + taps)) by {
        assert forall|j: int| start <= j < start + taps implies first[j] == second[j] by {
            assert(reach_of(sincs, first, at)[j - (at - 2)] == first[j]);
            assert(reach_of(sincs, second, at)[j - (at - 2)] == second[j]);
        }
    }
}

/// A frame depends on no sample that comes later than the length of a
/// kernel after its position, whatever the interpolation and the fraction:
/// two histories that hold the same from two samples before the position
/// to there give the frame the same value. With the centre of the kernels
/// half their length after the position, no frame has to wait for more than
/// half a kernel of input.
pub proof fn law_frame_within_reach<T: Sample>(
    sincs: Seq<Vec<T>>,
    interpolation: SincInterpolationType,
    first: Seq<T>,
    second: Seq<T>,
    at: int,
    fraction: T,
)
    requires
        is_table(sincs),
        2 <= at,
        at + 1 + taps_of(sincs) <= first.len(),
        at + 1 + taps_of(sincs) <= second.len(),
        reach_of(sincs, first, at) == reach_of(sincs, second, at),
    ensures
        interpolated(sincs, interpolation, first, at, fraction) == interpolated(
            sincs,
            interpolation,
            second,
            at,
            fraction,
        ),
{
    let factor = sincs.len() as int;
    let y = phase_value(fraction, factor);
    let k = capped(y.floor(), factor as usize) as int;
    let nearest = capped(y.plus(T::decimal(5, 1)).floor(), factor as usize) as int;
    lemma_tap_within_reach(sincs, first, second, at, nearest);
    lemma_tap_within_reach(sincs, first, second, at, k);
    lemma_tap_within_reach(sincs, first, second, at, k + 1);
    lemma_tap_within_reach(sincs, first, second, at, k + 2);
    if k == 0 {
        lemma_tap_within_reach(sincs, first, second, at, 0);
        lemma_tap_within_reach(sincs, first, second, at, 1);
        lemma_tap_within_reach(sincs, first, second, at, 2);
        lemma_tap_within_reach(sincs, first, second, at, 3);
    } else {
        lemma_tap_within_reach(sincs, first, second, at, k - 1);
    }
}

/// The inner product of one kernel with the run of `hist` that belongs to it.
fn tap<T: Sample>(sincs: &Vec<Vec<T>>, hist: &[T], at: usize, phase: usize) -> (y: T)
    requires
        is_table(sincs@),
        phase <= sincs@.len() + 2,
        2 <= at,
        at + 1 + taps_of(sincs@) <= hist@.len(),
    ensures
        y == tap_value(sincs@, hist@, at as int, phase as int),
{
    let factor = sincs.len();
    let back = phase / factor;
    assert(back <= 3) by (nonlinear_arith)
        requires
            back == phase / factor,
            0 < factor,
            phase <= factor + 2,
    ;
    let row = &sincs[phase % factor];
    assert(row@.len() == taps_of(sincs@));
    assert(hist@.len() <= usize::MAX) by {
        vstd::slice::axiom_spec_len(hist);
    }
    let start = at + 1 - back;
    let run = vstd::slice::slice_subrange(hist, start, start + row.len());
    dot(row.as_slice(), run)
}

/// Calculate the value of one output frame: the signal held in `hist`,
/// `fraction` of a sample past position `at`, as the kernels of `sincs` and the
/// chosen interpolation between them give it.
///
/// The kernels reach from `at - 2` to `at + 1` plus their length, which has to
/// lie inside `hist`.
pub fn interpolate<T: Sample>(
    sincs: &Vec<Vec<T>>,
    interpolation: SincInterpolationType,
    hist: &[T],
    at: usize,
    fraction: T,
) -> (y: T)
    requires
        is_table(sincs@),
        2 <= at,
        at + 1 + taps_of(sincs@) <= hist@.len(),
    ensures
        y == interpolated(sincs@, interpolation, hist@, at as int, fraction),
{
    let factor = sincs.len();
    let phase = T::one().minus(fraction).times(T::coerce(factor));
    let whole = phase.floor();
    let k = if whole > factor {
        factor
    } else {
        whole
    };
    let x = phase.minus(T::coerce(k));
    match interpolation {
        SincInterpolationType::Nearest => {
            let rounded = phase.plus(T::decimal(5, 1)).floor();
            let nearest = if rounded > factor {
                factor
            } else {
                rounded
            };
            tap(sincs, hist, at, nearest)
        },
        SincInterpolationType::Linear => {
            let points = [tap(sincs, hist, at, k), tap(sincs, hist, at, k + 1)];
            interp_lin(x, &points)
        },
        SincInterpolationType::Quadratic => {
            let points = [
                tap(sincs, hist, at, k),
                tap(sincs, hist, at, k + 1),
                tap(sincs, hist, at, k + 2),
            ];
            interp_quad(x, &points)
        },
        SincInterpolationType::Cubic => {
            if k == 0 {
                let points = [
                    tap(sincs, hist, at, 0),
                    tap(sincs, hist, at, 1),
                    tap(sincs, hist, at, 2),
                    tap(sincs, hist, at, 3),
                ];
                interp_cubic(x.minus(T::one()), &points)
            } else {
                let points = [
                    tap(sincs, hist, at, k - 1),
                    tap(sincs, hist, at, k),
                    tap(sincs, hist, at, k + 1),
                    tap(sincs, hist, at, k + 2),
                ];
                interp_cubic(x, &points)
            }
        },
    }
}

} // verus!
