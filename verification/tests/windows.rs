use rubato::{
    blackman, blackman_harris, calculate_cutoff, hann, make_window, Sample, WindowFunction,
};

/// A sample of 64 bits, with the arithmetic of the machine.
#[derive(Clone, Copy, Debug, PartialEq)]
struct Real(f64);

impl Sample for Real {
    fn zero_spec() -> Self {
        Self::zero()
    }

    fn one_spec() -> Self {
        Self::one()
    }

    fn pi_spec() -> Self {
        Self::pi()
    }

    fn coerce_spec(value: usize) -> Self {
        Self::coerce(value)
    }

    fn decimal_spec(digits: u64, scale: u32) -> Self {
        Self::decimal(digits, scale)
    }

    fn plus_spec(self, rhs: Self) -> Self {
        self.plus(rhs)
    }

    fn minus_spec(self, rhs: Self) -> Self {
        self.minus(rhs)
    }

    fn times_spec(self, rhs: Self) -> Self {
        self.times(rhs)
    }

    fn over_spec(self, rhs: Self) -> Self {
        self.over(rhs)
    }

    fn cos_spec(self) -> Self {
        self.cos()
    }

    fn sin_spec(self) -> Self {
        self.sin()
    }

    fn le_spec(self, rhs: Self) -> bool {
        self.le(rhs)
    }

    fn lt_spec(self, rhs: Self) -> bool {
        self.lt(rhs)
    }

    fn floor_spec(self) -> usize {
        self.floor()
    }

    fn ceil_spec(self) -> usize {
        self.ceil()
    }

    fn zero() -> Self {
        Real(0.0)
    }

    fn one() -> Self {
        Real(1.0)
    }

    fn pi() -> Self {
        Real(std::f64::consts::PI)
    }

    fn coerce(value: usize) -> Self {
        Real(value as f64)
    }

    fn decimal(digits: u64, scale: u32) -> Self {
        Real(format!("{}e-{}", digits, scale).parse::<f64>().unwrap())
    }

    fn plus(self, rhs: Self) -> Self {
        Real(self.0 + rhs.0)
    }

    fn minus(self, rhs: Self) -> Self {
        Real(self.0 - rhs.0)
    }

    fn times(self, rhs: Self) -> Self {
        Real(self.0 * rhs.0)
    }

    fn over(self, rhs: Self) -> Self {
        Real(self.0 / rhs.0)
    }

    fn cos(self) -> Self {
        Real(self.0.cos())
    }

    fn sin(self) -> Self {
        Real(self.0.sin())
    }

    fn le(self, rhs: Self) -> bool {
        self.0 <= rhs.0
    }

    fn lt(self, rhs: Self) -> bool {
        self.0 < rhs.0
    }

    fn floor(self) -> usize {
        self.0.floor() as usize
    }

    fn ceil(self) -> usize {
        self.0.ceil() as usize
    }
}

fn close(a: f64, b: f64, epsilon: f64) -> bool {
    (a - b).abs() <= epsilon
}

#[test]
fn test_blackman_harris() {
    let wnd = blackman_harris::<Real>(16);
    assert!(close(wnd[8].0, 1.0, 0.000001));
    assert!(wnd[0].0 < 0.001);
    assert!(wnd[15].0 < 0.1);
}

#[test]
fn test_blackman() {
    let wnd = blackman::<Real>(16);
    assert!(close(wnd[8].0, 1.0, 0.000001));
    assert!(wnd[0].0 < 0.000001);
    assert!(wnd[15].0 < 0.1);
}

#[test]
fn test_blackman2() {
    let wnd = make_window::<Real>(16, WindowFunction::Blackman);
    let wnd2 = make_window::<Real>(16, WindowFunction::Blackman2);
    assert!(close(wnd[1].0 * wnd[1].0, wnd2[1].0, 0.000001));
    assert!(close(wnd[4].0 * wnd[4].0, wnd2[4].0, 0.000001));
    assert!(close(wnd[7].0 * wnd[7].0, wnd2[7].0, 0.000001));
    assert!(wnd2[1].0 > 0.000001);
    assert!(wnd2[4].0 > 0.000001);
    assert!(wnd2[7].0 > 0.000001);
}

#[test]
fn test_hann() {
    let wnd = hann::<Real>(16);
    assert!(close(wnd[8].0, 1.0, 0.000001));
    assert!(wnd[0].0 < 0.000001);
    assert!(wnd[15].0 < 0.1);
}

#[test]
fn test_cutoff() {
    let cutoff = calculate_cutoff::<Real>(128, WindowFunction::Blackman);
    assert!(close(cutoff.0, 0.917, 0.001));
    let cutoff = calculate_cutoff::<Real>(256, WindowFunction::Blackman);
    assert!(close(cutoff.0, 0.957, 0.001));
    let cutoff = calculate_cutoff::<Real>(128, WindowFunction::Blackman2);
    assert!(close(cutoff.0, 0.856, 0.001));
    let cutoff = calculate_cutoff::<Real>(256, WindowFunction::Blackman2);
    assert!(close(cutoff.0, 0.922, 0.001));
    let cutoff = calculate_cutoff::<Real>(128, WindowFunction::BlackmanHarris);
    assert!(close(cutoff.0, 0.905, 0.001));
    let cutoff = calculate_cutoff::<Real>(256, WindowFunction::BlackmanHarris);
    assert!(close(cutoff.0, 0.950, 0.001));
    let cutoff = calculate_cutoff::<Real>(128, WindowFunction::BlackmanHarris2);
    assert!(close(cutoff.0, 0.833, 0.001));
    let cutoff = calculate_cutoff::<Real>(256, WindowFunction::BlackmanHarris2);
    assert!(close(cutoff.0, 0.909, 0.001));
    let cutoff = calculate_cutoff::<Real>(128, WindowFunction::Hann);
    assert!(close(cutoff.0, 0.929, 0.001));
    let cutoff = calculate_cutoff::<Real>(256, WindowFunction::Hann);
    assert!(close(cutoff.0, 0.963, 0.001));
    let cutoff = calculate_cutoff::<Real>(128, WindowFunction::Hann2);
    assert!(close(cutoff.0, 0.879, 0.001));
    let cutoff = calculate_cutoff::<Real>(256, WindowFunction::Hann2);
    assert!(close(cutoff.0, 0.936, 0.001));
}

#[test]
fn hann_of_four_points() {
    let wnd = hann::<Real>(4);
    assert_eq!(wnd.len(), 4);
    assert_eq!(wnd[0].0, 0.0);
    assert!(close(wnd[1].0, 0.5, 1e-15));
    assert_eq!(wnd[2].0, 1.0);
    assert!(close(wnd[3].0, 0.5, 1e-15));
}

#[test]
fn hann_follows_its_formula() {
    let wnd = hann::<Real>(16);
    for x in 0..16 {
        let angle = 2.0 * std::f64::consts::PI * x as f64 / 16.0;
        assert_eq!(wnd[x].0, 0.5 - 0.5 * angle.cos());
    }
}

#[test]
fn blackman_follows_its_formula() {
    let wnd = blackman::<Real>(16);
    for x in 0..16 {
        let two = 2.0 * std::f64::consts::PI * x as f64 / 16.0;
        let four = 4.0 * std::f64::consts::PI * x as f64 / 16.0;
        assert_eq!(wnd[x].0, 0.42 - 0.5 * two.cos() + 0.08 * four.cos());
    }
    assert!(close(wnd[8].0, 1.0, 1e-15));
    assert!(close(wnd[0].0, 0.0, 1e-15));
}

#[test]
fn blackman_harris_follows_its_formula() {
    let wnd = blackman_harris::<Real>(16);
    for x in 0..16 {
        let two = 2.0 * std::f64::consts::PI * x as f64 / 16.0;
        let four = 4.0 * std::f64::consts::PI * x as f64 / 16.0;
        let six = 6.0 * std::f64::consts::PI * x as f64 / 16.0;
        assert_eq!(
            wnd[x].0,
            0.35875 - 0.48829 * two.cos() + 0.14128 * four.cos() - 0.01168 * six.cos()
        );
    }
    assert!(close(wnd[0].0, 0.00006, 1e-15));
    assert!(close(wnd[8].0, 1.0, 1e-15));
}

#[test]
fn windows_of_no_points_are_empty() {
    assert!(hann::<Real>(0).is_empty());
    assert!(blackman::<Real>(0).is_empty());
    assert!(blackman_harris::<Real>(0).is_empty());
    assert!(make_window::<Real>(0, WindowFunction::Hann2).is_empty());
}

#[test]
fn make_window_picks_the_base_shape() {
    assert_eq!(make_window::<Real>(16, WindowFunction::Hann), hann::<Real>(16));
    assert_eq!(make_window::<Real>(16, WindowFunction::Blackman), blackman::<Real>(16));
    assert_eq!(
        make_window::<Real>(16, WindowFunction::BlackmanHarris),
        blackman_harris::<Real>(16)
    );
}

#[test]
fn squared_windows_are_the_squares() {
    let pairs = [
        (WindowFunction::Hann, WindowFunction::Hann2),
        (WindowFunction::Blackman, WindowFunction::Blackman2),
        (WindowFunction::BlackmanHarris, WindowFunction::BlackmanHarris2),
    ];
    for (base, squared) in pairs {
        let wnd = make_window::<Real>(32, base);
        let wnd2 = make_window::<Real>(32, squared);
        assert_eq!(wnd2.len(), 32);
        for x in 0..32 {
            assert_eq!(wnd2[x].0, wnd[x].0 * wnd[x].0);
        }
    }
}

#[test]
fn cutoff_follows_its_formula() {
    let cases = [
        (WindowFunction::Blackman, 11.556),
        (WindowFunction::Blackman2, 21.578),
        (WindowFunction::BlackmanHarris, 13.45),
        (WindowFunction::BlackmanHarris2, 25.649),
        (WindowFunction::Hann, 9.801),
        (WindowFunction::Hann2, 17.578),
    ];
    for (window, k1) in cases {
        for npoints in [32usize, 100, 128, 256, 1000, 2048] {
            let n = npoints as f64;
            let expected = 1.0 / (k1 / n + 0.0 / (n * n) + 0.0 / (n * n * n) + 1.0);
            assert_eq!(calculate_cutoff::<Real>(npoints, window).0, expected);
        }
    }
}

#[test]
fn cutoff_lies_between_zero_and_one() {
    for npoints in [1usize, 8, 32, 256, 2048, 100000] {
        let cutoff = calculate_cutoff::<Real>(npoints, WindowFunction::BlackmanHarris2).0;
        assert!(cutoff > 0.0 && cutoff < 1.0);
    }
}
