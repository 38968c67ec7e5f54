use vstd::prelude::*;

verus! {

/// A sample value, together with the arithmetic that the filters are built from.
///
/// Every operation is a pair: a specification function, which names the value
/// of the operation, and an executable method, which returns exactly that
/// value. In a contract the executable name stands for its specification
/// function, so `a.plus(b)` in an `ensures` clause is the value that the call
/// `a.plus(b)` returns.
///
/// Nothing is assumed of the arithmetic beyond that: no operation is taken to
/// be associative, exact or even monotonic, so the contracts of this crate
/// hold for rounded arithmetic as they do for exact arithmetic. What they give
/// up is any statement about magnitudes; they say which operations were
/// applied to which values, and in which order.
///
/// What is proved of this crate holds for an implementation whose methods
/// return what its specification functions name: each method has to be a
/// function of its arguments alone.
pub trait Sample: Copy + Send {
    /// The additive identity.
    spec fn zero_spec() -> Self;

    /// The multiplicative identity.
    spec fn one_spec() -> Self;

    /// The circle constant.
    spec fn pi_spec() -> Self;

    /// The sample that stands for the whole number `value`.
    spec fn coerce_spec(value: usize) -> Self;

    /// The sample that stands for the decimal number `digits / 10^scale`.
    spec fn decimal_spec(digits: u64, scale: u32) -> Self;

    /// The sum `self + rhs`.
    spec fn plus_spec(self, rhs: Self) -> Self;

    /// The difference `self - rhs`.
    spec fn minus_spec(self, rhs: Self) -> Self;

    /// The product `self * rhs`.
    spec fn times_spec(self, rhs: Self) -> Self;

    /// The quotient `self / rhs`.
    spec fn over_spec(self, rhs: Self) -> Self;

    /// The cosine of `self`, taken as an angle in radians.
    spec fn cos_spec(self) -> Self;

    /// The sine of `self`, taken as an angle in radians.
    spec fn sin_spec(self) -> Self;

    /// Whether `self` is at most `rhs`.
    spec fn le_spec(self, rhs: Self) -> bool;

    /// Whether `self` is less than `rhs`.
    spec fn lt_spec(self, rhs: Self) -> bool;

    /// The largest whole number that is at most `self`, as far as `usize` can hold it.
    spec fn floor_spec(self) -> usize;

    /// The smallest whole number that is at least `self`, as far as `usize` can hold it.
    spec fn ceil_spec(self) -> usize;

    #[verifier::when_used_as_spec(zero_spec)]
    fn zero() -> (r: Self)
        ensures
            r == Self::zero_spec(),
    ;

    #[verifier::when_used_as_spec(one_spec)]
    fn one() -> (r: Self)
        ensures
            r == Self::one_spec(),
    ;

    #[verifier::when_used_as_spec(pi_spec)]
    fn pi() -> (r: Self)
        ensures
            r == Self::pi_spec(),
    ;

    #[verifier::when_used_as_spec(coerce_spec)]
    fn coerce(value: usize) -> (r: Self)
        ensures
            r == Self::coerce_spec(value),
    ;

    #[verifier::when_used_as_spec(decimal_spec)]
    fn decimal(digits: u64, scale: u32) -> (r: Self)
        ensures
            r == Self::decimal_spec(digits, scale),
    ;

    #[verifier::when_used_as_spec(plus_spec)]
    fn plus(self, rhs: Self) -> (r: Self)
        ensures
            r == self.plus_spec(rhs),
    ;

    #[verifier::when_used_as_spec(minus_spec)]
    fn minus(self, rhs: Self) -> (r: Self)
        ensures
            r == self.minus_spec(rhs),
    ;

    #[verifier::when_used_as_spec(times_spec)]
    fn times(self, rhs: Self) -> (r: Self)
        ensures
            r == self.times_spec(rhs),
    ;

    #[verifier::when_used_as_spec(over_spec)]
    fn over(self, rhs: Self) -> (r: Self)
        ensures
            r == self.over_spec(rhs),
    ;

    #[verifier::when_used_as_spec(cos_spec)]
    fn cos(self) -> (r: Self)
        ensures
            r == self.cos_spec(),
    ;

    #[verifier::when_used_as_spec(sin_spec)]
    fn sin(self) -> (r: Self)
        ensures
            r == self.sin_spec(),
    ;

    #[verifier::when_used_as_spec(le_spec)]
    fn le(self, rhs: Self) -> (r: bool)
        ensures
            r == self.le_spec(rhs),
    ;

    #[verifier::when_used_as_spec(lt_spec)]
    fn lt(self, rhs: Self) -> (r: bool)
        ensures
            r == self.lt_spec(rhs),
    ;

    #[verifier::when_used_as_spec(floor_spec)]
    fn floor(self) -> (r: usize)
        ensures
            r == self.floor_spec(),
    ;

    #[verifier::when_used_as_spec(ceil_spec)]
    fn ceil(self) -> (r: usize)
        ensures
            r == self.ceil_spec(),
    ;
}

} // verus!
