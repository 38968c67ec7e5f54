use vstd::prelude::*;
use crate::sample::Sample;

verus! {

/// Different window functions that can be used to window the sinc function.
#[derive(Debug, Clone, Copy)]
pub enum WindowFunction {
    /// Blackman. Intermediate rolloff and intermediate attenuation.
    Blackman,
    /// Squared Blackman. Slower rolloff but better attenuation than Blackman.
    Blackman2,
    /// Blackman-Harris. Slow rolloff but good attenuation.
    BlackmanHarris,
    /// Squared Blackman-Harris. Slower rolloff but better attenuation than Blackman-Harris.
    BlackmanHarris2,
    /// Hann. Fast rolloff but not very high attenuation.
    Hann,
    /// Squared Hann. Slower rolloff and higher attenuation than simple Hann.
    Hann2,
}

impl WindowFunction {
    /// Whether the window is the square of its base shape.
    pub open spec fn is_squared(self) -> bool {
        self is Blackman2 || self is BlackmanHarris2 || self is Hann2
    }
}

/// `cos(k * pi * x / npoints)`, the products and the quotient taken from left to right.
pub open spec fn harmonic<T: Sample>(k: usize, x: usize, npoints: usize) -> T {
    T::coerce(k).times(T::pi()).times(T::coerce(x)).over(T::coerce(npoints)).cos()
}

/// Point `x` of the Blackman-Harris window of length `npoints`:
/// `0.35875 - 0.48829 cos(2 pi x / N) + 0.14128 cos(4 pi x / N) - 0.01168 cos(6 pi x / N)`.
pub open spec fn blackman_harris_point<T: Sample>(x: usize, npoints: usize) -> T {
    T::decimal(35875, 5).minus(T::decimal(48829, 5).times(harmonic::<T>(2, x, npoints))).plus(
        T::decimal(14128, 5).times(harmonic::<T>(4, x, npoints)),
    ).minus(T::decimal(1168, 5).times(harmonic::<T>(6, x, npoints)))
}

/// Point `x` of the Blackman window of length `npoints`:
/// `0.42 - 0.5 cos(2 pi x / N) + 0.08 cos(4 pi x / N)`.
pub open spec fn blackman_point<T: Sample>(x: usize, npoints: usize) -> T {
    T::decimal(42, 2).minus(T::decimal(5, 1).times(harmonic::<T>(2, x, npoints))).plus(
        T::decimal(8, 2).times(harmonic::<T>(4, x, npoints)),
    )
}

/// Point `x` of the Hann window of length `npoints`: `0.5 - 0.5 cos(2 pi x / N)`.
pub open spec fn hann_point<T: Sample>(x: usize, npoints: usize) -> T {
    T::decimal(5, 1).minus(T::decimal(5, 1).times(harmonic::<T>(2, x, npoints)))
}

/// Point `x` of the base shape of `windowfunc`, before any squaring.
pub open spec fn base_point<T: Sample>(windowfunc: WindowFunction, x: usize, npoints: usize) -> T {
    match windowfunc {
        WindowFunction::BlackmanHarris | WindowFunction::BlackmanHarris2 => {
            blackman_harris_point::<T>(x, npoints)
        },
        WindowFunction::Blackman | WindowFunction::Blackman2 => blackman_point::<T>(x, npoints),
        WindowFunction::Hann | WindowFunction::Hann2 => hann_point::<T>(x, npoints),
    }
}

/// Point `x` of the window `windowfunc` of length `npoints`: the point of the
/// base shape, multiplied by itself where the window is a squared one.
pub open spec fn window_point<T: Sample>(
    windowfunc: WindowFunction,
    x: usize,
    npoints: usize,
) -> T {
    let y = base_point::<T>(windowfunc, x, npoints);
    if windowfunc.is_squared() {
        y.times(y)
    } else {
        y
    }
}

/// Helper function. Standard Blackman-Harris window
pub fn blackman_harris<T: Sample>(npoints: usize) -> (window: Vec<T>)
    ensures
        window@.len() == npoints,
        forall|x: int|
            0 <= x < npoints ==> window@[x] == blackman_harris_point::<T>(x as usize, npoints),
{
    let mut window: Vec<T> = Vec::with_capacity(npoints);
    let pi2 = T::coerce(2).times(T::pi());
    let pi4 = T::coerce(4).times(T::pi());
    let pi6 = T::coerce(6).times(T::pi());
    let np_f = T::coerce(npoints);
    let a = T::decimal(35875, 5);
    let b = T::decimal(48829, 5);
    let c = T::decimal(14128, 5);
    let d = T::decimal(1168, 5);
    let mut x: usize = 0;
    while x < npoints
        invariant
            x <= npoints,
            window@.len() == x,
            pi2 == T::coerce(2).times(T::pi()),
            pi4 == T::coerce(4).times(T::pi()),
            pi6 == T::coerce(6).times(T::pi()),
            np_f == T::coerce(npoints),
            a == T::decimal(35875, 5),
            b == T::decimal(48829, 5),
            c == T::decimal(14128, 5),
            d == T::decimal(1168, 5),
            forall|i: int|
                0 <= i < x ==> window@[i] == blackman_harris_point::<T>(i as usize, npoints),
        decreases npoints - x,
    {
        let x_float = T::coerce(x);
        let item = a.minus(b.times(pi2.times(x_float).over(np_f).cos())).plus(
            c.times(pi4.times(x_float).over(np_f).cos()),
        ).minus(d.times(pi6.times(x_float).over(np_f).cos()));
        window.push(item);
        x += 1;
    }
    window
}

/// Helper function. Standard Blackman window
pub fn blackman<T: Sample>(npoints: usize) -> (window: Vec<T>)
    ensures
        window@.len() == npoints,
        forall|x: int|
            0 <= x < npoints ==> window@[x] == blackman_point::<T>(x as usize, npoints),
{
    let mut window: Vec<T> = Vec::with_capacity(npoints);
    let pi2 = T::coerce(2).times(T::pi());
    let pi4 = T::coerce(4).times(T::pi());
    let np_f = T::coerce(npoints);
    let a = T::decimal(42, 2);
    let b = T::decimal(5, 1);
    let c = T::decimal(8, 2);
    let mut x: usize = 0;
    while x < npoints
        invariant
            x <= npoints,
            window@.len() == x,
            pi2 == T::coerce(2).times(T::pi()),
            pi4 == T::coerce(4).times(T::pi()),
            np_f == T::coerce(npoints),
            a == T::decimal(42, 2),
            b == T::decimal(5, 1),
            c == T::decimal(8, 2),
            forall|i: int| 0 <= i < x ==> window@[i] == blackman_point::<T>(i as usize, npoints),
        decreases npoints - x,
    {
        let x_float = T::coerce(x);
        let item = a.minus(b.times(pi2.times(x_float).over(np_f).cos())).plus(
            c.times(pi4.times(x_float).over(np_f).cos()),
        );
        window.push(item);
        x += 1;
    }
    window
}

/// Standard Hann window
pub fn hann<T: Sample>(npoints: usize) -> (window: Vec<T>)
    ensures
        window@.len() == npoints,
        forall|x: int| 0 <= x < npoints ==> window@[x] == hann_point::<T>(x as usize, npoints),
{
    let mut window: Vec<T> = Vec::with_capacity(npoints);
    let pi2 = T::coerce(2).times(T::pi());
    let np_f = T::coerce(npoints);
    let a = T::decimal(5, 1);
    let mut x: usize = 0;
    while x < npoints
        invariant
            x <= npoints,
            window@.len() == x,
            pi2 == T::coerce(2).times(T::pi()),
            np_f == T::coerce(npoints),
            a == T::decimal(5, 1),
            forall|i: int| 0 <= i < x ==> window@[i] == hann_point::<T>(i as usize, npoints),
        decreases npoints - x,
    {
        let x_float = T::coerce(x);
        let item = a.minus(a.times(pi2.times(x_float).over(np_f).cos()));
        window.push(item);
        x += 1;
    }
    window
}

/// Make the selected window function
pub fn make_window<T: Sample>(npoints: usize, windowfunc: WindowFunction) -> (window: Vec<T>)
    ensures
        window@.len() == npoints,
        forall|x: int|
            0 <= x < npoints ==> window@[x] == window_point::<T>(windowfunc, x as usize, npoints),
{
    let mut window = match windowfunc {
        WindowFunction::BlackmanHarris | WindowFunction::BlackmanHarris2 => {
            blackman_harris::<T>(npoints)
        },
        WindowFunction::Blackman | WindowFunction::Blackman2 => blackman::<T>(npoints),
        WindowFunction::Hann | WindowFunction::Hann2 => hann::<T>(npoints),
    };
    match windowfunc {
        WindowFunction::Blackman2 | WindowFunction::BlackmanHarris2 | WindowFunction::Hann2 => {
            let mut x: usize = 0;
            while x < npoints
                invariant
                    x <= npoints,
                    window@.len() == npoints,
                    windowfunc.is_squared(),
                    forall|i: int|
                        0 <= i < x ==> window@[i] == window_point::<T>(
                            windowfunc,
                            i as usize,
                            npoints,
                        ),
                    forall|i: int|
                        x <= i < npoints ==> window@[i] == base_point::<T>(
                            windowfunc,
                            i as usize,
                            npoints,
                        ),
                decreases npoints - x,
            {
                let y = window[x];
                window[x] = y.times(y);
                x += 1;
            }
        },
        _ => {},
    };
    window
}

/// The three coefficients `(k1, k2, k3)` of the cutoff approximation for
/// `windowfunc`, each a decimal number given by its digits and its scale.
///
/// They are fitted to these suggested cutoffs, which they meet to three decimals:
///
/// | window | 128 points | 256 points |
/// |---|---|---|
/// | Blackman | 0.917 | 0.957 |
/// | Blackman2 | 0.856 | 0.922 |
/// | BlackmanHarris | 0.905 | 0.950 |
/// | BlackmanHarris2 | 0.833 | 0.909 |
/// | Hann | 0.929 | 0.963 |
/// | Hann2 | 0.879 | 0.936 |
///
/// To that precision the cutoffs follow `1 / (k1 / N + 1)`, so the two
/// higher coefficients are zero for every window.
pub open spec fn cutoff_coefficients(windowfunc: WindowFunction) -> (
    (u64, u32),
    (u64, u32),
    (u64, u32),
) {
    match windowfunc {
        WindowFunction::BlackmanHarris => ((13450, 3), (0, 0), (0, 0)),
        WindowFunction::BlackmanHarris2 => ((25649, 3), (0, 0), (0, 0)),
        WindowFunction::Blackman => ((11556, 3), (0, 0), (0, 0)),
        WindowFunction::Blackman2 => ((21578, 3), (0, 0), (0, 0)),
        WindowFunction::Hann => ((9801, 3), (0, 0), (0, 0)),
        WindowFunction::Hann2 => ((17578, 3), (0, 0), (0, 0)),
    }
}

/// The suggested cutoff for a sinc of `npoints` points under `windowfunc`:
/// `1 / (k1 / N + k2 / N^2 + k3 / N^3 + 1)`, the sum taken from left to right.
pub open spec fn cutoff_value<T: Sample>(npoints: usize, windowfunc: WindowFunction) -> T {
    let (k1, k2, k3) = cutoff_coefficients(windowfunc);
    let n2 = (npoints * npoints) as usize;
    let n3 = (npoints * npoints * npoints) as usize;
    T::one().over(
        T::decimal(k1.0, k1.1).over(T::coerce(npoints)).plus(
            T::decimal(k2.0, k2.1).over(T::coerce(n2)),
        ).plus(T::decimal(k3.0, k3.1).over(T::coerce(n3))).plus(T::one()),
    )
}

/// Calculate a suitable relative cutoff frequency for the given sinc length using the given window function.
/// The result is an approximation whose coefficients are fitted at 128 and at
/// 256 points; between and around these it follows its formula, and nothing
/// is claimed of how well the result suits other lengths.
///
/// The cube of `npoints` has to fit in a `usize`.
pub fn calculate_cutoff<T: Sample>(npoints: usize, windowfunc: WindowFunction) -> (cutoff: T)
    requires
        npoints * npoints * npoints <= usize::MAX,
    ensures
        cutoff == cutoff_value::<T>(npoints, windowfunc),
{
    let (k1, k2, k3) = match windowfunc {
        WindowFunction::BlackmanHarris => (T::decimal(13450, 3), T::decimal(0, 0), T::decimal(0, 0)),
        WindowFunction::BlackmanHarris2 => (
            T::decimal(25649, 3),
            T::decimal(0, 0),
            T::decimal(0, 0),
        ),
        WindowFunction::Blackman => (T::decimal(11556, 3), T::decimal(0, 0), T::decimal(0, 0)),
        WindowFunction::Blackman2 => (T::decimal(21578, 3), T::decimal(0, 0), T::decimal(0, 0)),
        WindowFunction::Hann => (T::decimal(9801, 3), T::decimal(0, 0), T::decimal(0, 0)),
        WindowFunction::Hann2 => (T::decimal(17578, 3), T::decimal(0, 0), T::decimal(0, 0)),
    };
    assert(npoints * npoints <= npoints * npoints * npoints) by (nonlinear_arith);
    let n2: usize = npoints * npoints;
    let n3: usize = n2 * npoints;
    let one = T::one();
    one.over(
        k1.over(T::coerce(npoints)).plus(k2.over(T::coerce(n2))).plus(k3.over(T::coerce(n3))).plus(
            one,
        ),
    )
}

} // verus!
