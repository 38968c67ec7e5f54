use rubato::cursor::Cursor;
use rubato::history::DelayLine;
use rubato::Sample;

/// A sample of 64 bits, with the arithmetic of the machine.
#[derive(Clone, Copy, Debug, PartialEq)]
struct Real(f64);

impl Sample for Real {
    fn zero_spec() -> Self {
        Self::zero()
    }

    fn one_spec() -> Self {
        Self::one()
    }

    fn pi_spec() -> Self {
        Self::pi()
    }

    fn coerce_spec(value: usize) -> Self {
        Self::coerce(value)
    }

    fn decimal_spec(digits: u64, scale: u32) -> Self {
        Self::decimal(digits, scale)
    }

    fn plus_spec(self, rhs: Self) -> Self {
        self.plus(rhs)
    }

    fn minus_spec(self, rhs: Self) -> Self {
        self.minus(rhs)
    }

    fn times_spec(self, rhs: Self) -> Self {
        self.times(rhs)
    }

    fn over_spec(self, rhs: Self) -> Self {
        self.over(rhs)
    }

    fn cos_spec(self) -> Self {
        self.cos()
    }

    fn sin_spec(self) -> Self {
        self.sin()
    }

    fn le_spec(self, rhs: Self) -> bool {
        self.le(rhs)
    }

    fn lt_spec(self, rhs: Self) -> bool {
        self.lt(rhs)
    }

    fn floor_spec(self) -> usize {
        self.floor()
    }

    fn ceil_spec(self) -> usize {
        self.ceil()
    }

    fn zero() -> Self {
        Real(0.0)
    }

    fn one() -> Self {
        Real(1.0)
    }

    fn pi() -> Self {
        Real(std::f64::consts::PI)
    }

    fn coerce(value: usize) -> Self {
        Real(value as f64)
    }

    fn decimal(digits: u64, scale: u32) -> Self {
        Real(format!("{}e-{}", digits, scale).parse::<f64>().unwrap())
    }

    fn plus(self, rhs: Self) -> Self {
        Real(self.0 + rhs.0)
    }

    fn minus(self, rhs: Self) -> Self {
        Real(self.0 - rhs.0)
    }

    fn times(self, rhs: Self) -> Self {
        Real(self.0 * rhs.0)
    }

    fn over(self, rhs: Self) -> Self {
        Real(self.0 / rhs.0)
    }

    fn cos(self) -> Self {
        Real(self.0.cos())
    }

    fn sin(self) -> Self {
        Real(self.0.sin())
    }

    fn le(self, rhs: Self) -> bool {
        self.0 <= rhs.0
    }

    fn lt(self, rhs: Self) -> bool {
        self.0 < rhs.0
    }

    fn floor(self) -> usize {
        self.0.floor() as usize
    }

    fn ceil(self) -> usize {
        self.0.ceil() as usize
    }
}

fn close(a: f64, b: f64, epsilon: f64) -> bool {
    (a - b).abs() <= epsilon
}

#[test]
fn steady_cursor_lies_on_its_sample() {
    let cursor = Cursor::steady(7, Real(2.0));
    assert_eq!(cursor.index, 7);
    assert_eq!(cursor.fraction.0, 0.0);
    assert_eq!(cursor.ratio.0, 2.0);
    assert_eq!(cursor.target.0, 2.0);
    assert_eq!(cursor.step.0, 0.0);
    assert_eq!(cursor.remaining, 0);
}

#[test]
fn a_frame_moves_the_cursor_by_one_over_the_ratio() {
    let cursor = Cursor::steady(7, Real(2.0)).next();
    assert_eq!((cursor.index, cursor.fraction.0), (7, 0.5));
    let cursor = cursor.next();
    assert_eq!((cursor.index, cursor.fraction.0), (8, 0.0));
    let cursor = Cursor::steady(7, Real(0.25)).next();
    assert_eq!((cursor.index, cursor.fraction.0), (11, 0.0));
    let cursor = Cursor::steady(7, Real(0.8)).next();
    assert_eq!(cursor.index, 8);
    assert!(close(cursor.fraction.0, 0.25, 1e-12));
}

#[test]
fn skip_is_next_again_and_again() {
    let start = Cursor::steady(3, Real(1.6));
    let mut one_by_one = start;
    for _ in 0..10 {
        one_by_one = one_by_one.next();
    }
    let skipped = start.skip(10);
    assert_eq!(skipped.index, one_by_one.index);
    assert_eq!(skipped.fraction.0, one_by_one.fraction.0);
    assert_eq!(skipped.index, 9);
    assert!(close(skipped.fraction.0, 0.25, 1e-12));
    assert_eq!(start.skip(0).index, 3);
}

#[test]
fn the_index_stops_at_the_largest_count() {
    let mut cursor = Cursor::steady(usize::MAX - 1, Real(0.25));
    cursor = cursor.next();
    assert_eq!(cursor.index, usize::MAX);
    assert_eq!(cursor.reach(), usize::MAX);
}

#[test]
fn a_frame_is_due_half_a_step_after_its_place() {
    // Ratio 1: half a step is half a sample.
    assert_eq!(Cursor::steady(7, Real(1.0)).reach(), 7);
    let mut late = Cursor::steady(7, Real(1.0));
    late.fraction = Real(0.5);
    assert_eq!(late.reach(), 8);
    // Ratio 0.25: half a step is two samples.
    assert_eq!(Cursor::steady(7, Real(0.25)).reach(), 9);
}

#[test]
fn frames_are_counted_up_to_the_last_sample() {
    // Ratio 1: one frame on each of the samples 7 to 16.
    assert_eq!(Cursor::steady(7, Real(1.0)).count_frames(16, 100), 10);
    // Ratio 2: two frames for each of them.
    assert_eq!(Cursor::steady(7, Real(2.0)).count_frames(16, 100), 20);
    // Ratio 0.5: the frames on 7, 9, 11, 13 and 15, each due one sample later.
    assert_eq!(Cursor::steady(7, Real(0.5)).count_frames(16, 100), 5);
    assert_eq!(Cursor::steady(7, Real(0.5)).count_frames(15, 100), 4);
}

#[test]
fn the_count_of_frames_has_a_limit() {
    assert_eq!(Cursor::steady(7, Real(1.0)).count_frames(16, 4), 4);
    assert_eq!(Cursor::steady(7, Real(1.0)).count_frames(16, 0), 0);
    assert_eq!(Cursor::steady(7, Real(1.0)).count_frames(6, 100), 0);
}

#[test]
fn the_next_chunk_starts_where_the_last_one_ended() {
    let mut cursor = Cursor::steady(20, Real(1.0));
    cursor.fraction = Real(0.25);
    cursor.target = Real(3.0);
    cursor.step = Real(0.5);
    cursor.remaining = 4;
    let next = cursor.rebased(16);
    assert_eq!(next.index, 4);
    assert_eq!(next.fraction.0, 0.25);
    assert_eq!(next.ratio.0, 3.0);
    assert_eq!(next.target.0, 3.0);
    assert_eq!(next.step.0, 0.0);
    assert_eq!(next.remaining, 0);
    assert_eq!(cursor.rebased(30).index, 0);
}

#[test]
fn the_ratio_turns_at_once_without_a_ramp() {
    let cursor = Cursor::steady(7, Real(2.0)).turned(Real(1.5), false, 100);
    assert_eq!(cursor.ratio.0, 1.5);
    assert_eq!(cursor.target.0, 1.5);
    assert_eq!(cursor.remaining, 0);
    assert_eq!(cursor.index, 7);
}

#[test]
fn a_ramp_reaches_its_target_with_its_last_frame() {
    let mut cursor = Cursor::steady(7, Real(2.0)).turned(Real(1.0), true, 4);
    assert_eq!(cursor.ratio.0, 2.0);
    assert_eq!(cursor.target.0, 1.0);
    assert_eq!(cursor.step.0, -0.25);
    assert_eq!(cursor.remaining, 4);
    let mut ratios = Vec::new();
    for _ in 0..6 {
        cursor = cursor.next();
        ratios.push(cursor.ratio.0);
    }
    assert_eq!(ratios, vec![1.75, 1.5, 1.25, 1.0, 1.0, 1.0]);
    assert_eq!(cursor.remaining, 0);
}

#[test]
fn a_ramp_over_no_frames_turns_at_once() {
    let cursor = Cursor::steady(7, Real(2.0)).turned(Real(1.0), true, 0);
    assert_eq!(cursor.ratio.0, 1.0);
    assert_eq!(cursor.remaining, 0);
}

fn reals(values: &[f64]) -> Vec<Real> {
    values.iter().map(|v| Real(*v)).collect()
}

#[test]
fn a_new_line_holds_silence() {
    let line = DelayLine::<Real>::new(4, 3);
    assert_eq!(line.len(), 4);
    assert_eq!(line.samples(), &reals(&[0.0, 0.0, 0.0, 0.0])[..]);
    let empty = DelayLine::<Real>::new(0, 0);
    assert_eq!(empty.len(), 0);
}

#[test]
fn samples_are_added_at_the_end() {
    let mut line = DelayLine::<Real>::new(2, 4);
    line.append(&reals(&[1.0, 2.0, 3.0]), 2);
    assert_eq!(line.samples(), &reals(&[0.0, 0.0, 1.0, 2.0])[..]);
    line.append(&reals(&[5.0]), 1);
    assert_eq!(line.samples(), &reals(&[0.0, 0.0, 1.0, 2.0, 5.0])[..]);
    line.append(&reals(&[7.0]), 0);
    assert_eq!(line.len(), 5);
}

#[test]
fn silence_is_added_at_the_end() {
    let mut line = DelayLine::<Real>::new(1, 3);
    line.append(&reals(&[1.0]), 1);
    line.append_silence(2);
    assert_eq!(line.samples(), &reals(&[0.0, 1.0, 0.0, 0.0])[..]);
}

#[test]
fn the_oldest_samples_leave_first() {
    let mut line = DelayLine::<Real>::new(0, 5);
    line.append(&reals(&[1.0, 2.0, 3.0, 4.0, 5.0]), 5);
    line.discard(2);
    assert_eq!(line.samples(), &reals(&[3.0, 4.0, 5.0])[..]);
    line.append(&reals(&[6.0, 7.0]), 2);
    assert_eq!(line.samples(), &reals(&[3.0, 4.0, 5.0, 6.0, 7.0])[..]);
    line.discard(0);
    assert_eq!(line.len(), 5);
    line.discard(5);
    assert_eq!(line.len(), 0);
}

#[test]
fn a_cleared_line_holds_silence() {
    let mut line = DelayLine::<Real>::new(0, 3);
    line.append(&reals(&[1.0, 2.0, 3.0]), 3);
    line.clear();
    assert_eq!(line.samples(), &reals(&[0.0, 0.0, 0.0])[..]);
}
