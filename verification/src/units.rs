use vstd::prelude::*;

use crate::complex::Complex;

verus! {

/// A floating-point sample type.
///
/// The filters never look inside a sample: they only combine samples through
/// the operations of this trait. Every operation has two forms. The `spec_*`
/// function names its result in contracts; the executable method has to return
/// exactly that result. Contracts compare samples with `==`, which stands for
/// identity of bit patterns (see [`FP::same`]), so an implementation has to be
/// deterministic: the same operands always give the same bits. What the
/// library proves holds for every implementation that keeps these promises;
/// the promises themselves are taken on trust.
pub trait FP: Sized + Copy {
    /// The sample that stands for the whole number `n`.
    spec fn spec_from_usize(n: usize) -> Self;

    /// One half.
    spec fn spec_half() -> Self;

    /// One twentieth.
    spec fn spec_twentieth() -> Self;

    /// The circle constant pi.
    spec fn spec_pi() -> Self;

    /// Two pi.
    spec fn spec_tau() -> Self;

    /// The natural logarithm of two.
    spec fn spec_ln_2() -> Self;

    /// The reciprocal of the square root of two.
    spec fn spec_frac_1_sqrt_2() -> Self;

    spec fn spec_add(self, rhs: Self) -> Self;

    spec fn spec_sub(self, rhs: Self) -> Self;

    spec fn spec_mul(self, rhs: Self) -> Self;

    spec fn spec_div(self, rhs: Self) -> Self;

    spec fn spec_neg(self) -> Self;

    spec fn spec_min(self, rhs: Self) -> Self;

    spec fn spec_max(self, rhs: Self) -> Self;

    spec fn spec_sqrt(self) -> Self;

    spec fn spec_tan(self) -> Self;

    spec fn spec_sin(self) -> Self;

    spec fn spec_cos(self) -> Self;

    spec fn spec_sinh(self) -> Self;

    /// `self` raised to the power `exponent`.
    spec fn spec_powf(self, exponent: Self) -> Self;

    spec fn spec_log10(self) -> Self;

    /// Whether `self` is strictly below `rhs`.
    spec fn spec_lt(self, rhs: Self) -> bool;

    /// The whole part of `self` as a count: zero below one and for a value
    /// that is no number, the largest count for a value too large to hold.
    spec fn spec_to_usize(self) -> usize;

    /// The value widened to double precision, as its IEEE 754 bit pattern.
    spec fn spec_to_bits(self) -> u64;

    /// The sample nearest to the double-precision value with these bits.
    spec fn spec_from_bits(bits: u64) -> Self;

    fn from_usize(n: usize) -> (r: Self)
        ensures
            r == Self::spec_from_usize(n),
    ;

    fn half() -> (r: Self)
        ensures
            r == Self::spec_half(),
    ;

    fn twentieth() -> (r: Self)
        ensures
            r == Self::spec_twentieth(),
    ;

    fn pi() -> (r: Self)
        ensures
            r == Self::spec_pi(),
    ;

    fn tau() -> (r: Self)
        ensures
            r == Self::spec_tau(),
    ;

    fn ln_2() -> (r: Self)
        ensures
            r == Self::spec_ln_2(),
    ;

    fn frac_1_sqrt_2() -> (r: Self)
        ensures
            r == Self::spec_frac_1_sqrt_2(),
    ;

    fn add(self, rhs: Self) -> (r: Self)
        ensures
            r == self.spec_add(rhs),
    ;

    fn sub(self, rhs: Self) -> (r: Self)
        ensures
            r == self.spec_sub(rhs),
    ;

    fn mul(self, rhs: Self) -> (r: Self)
        ensures
            r == self.spec_mul(rhs),
    ;

    fn div(self, rhs: Self) -> (r: Self)
        ensures
            r == self.spec_div(rhs),
    ;

    fn neg(self) -> (r: Self)
        ensures
            r == self.spec_neg(),
    ;

    fn min(self, rhs: Self) -> (r: Self)
        ensures
            r == self.spec_min(rhs),
    ;

    fn max(self, rhs: Self) -> (r: Self)
        ensures
            r == self.spec_max(rhs),
    ;

    fn sqrt(self) -> (r: Self)
        ensures
            r == self.spec_sqrt(),
    ;

    fn tan(self) -> (r: Self)
        ensures
            r == self.spec_tan(),
    ;

    fn sin(self) -> (r: Self)
        ensures
            r == self.spec_sin(),
    ;

    fn cos(self) -> (r: Self)
        ensures
            r == self.spec_cos(),
    ;

    fn sinh(self) -> (r: Self)
        ensures
            r == self.spec_sinh(),
    ;

    fn powf(self, exponent: Self) -> (r: Self)
        ensures
            r == self.spec_powf(exponent),
    ;

    fn log10(self) -> (r: Self)
        ensures
            r == self.spec_log10(),
    ;

    fn lt(self, rhs: Self) -> (r: bool)
        ensures
            r == self.spec_lt(rhs),
    ;

    /// Whether the two samples have the same bits.
    fn same(self, rhs: Self) -> (r: bool)
        ensures
            r == (self == rhs),
    ;

    fn to_usize(self) -> (r: usize)
        ensures
            r == self.spec_to_usize(),
    ;

    fn to_bits(self) -> (r: u64)
        ensures
            r == self.spec_to_bits(),
    ;

    fn from_bits(bits: u64) -> (r: Self)
        ensures
            r == Self::spec_from_bits(bits),
    ;
}

/// The sample of type `B` nearest to `x`.
pub open spec fn spec_cast<A: FP, B: FP>(x: A) -> B {
    B::spec_from_bits(x.spec_to_bits())
}

/// Converts a sample to another sample type, rounding to the nearest value
/// where the target is narrower.
pub fn cast<A: FP, B: FP>(x: A) -> (r: B)
    ensures
        r == spec_cast::<A, B>(x),
{
    B::from_bits(x.to_bits())
}

/// Conversions between the units in which filter parameters are given.
pub trait Units<T> {
    spec fn spec_to_range(self, bottom: T, top: T) -> T;

    spec fn spec_from_range(self, bottom: T, top: T) -> T;

    spec fn spec_db_to_lin(self) -> T;

    spec fn spec_lin_to_db(self) -> T;

    spec fn spec_sign(self, b: T) -> T;

    spec fn spec_bandwidth_to_q(self) -> T;

    /// Maps a position in `0..1` onto the range from `bottom` to `top`.
    fn to_range(self, bottom: T, top: T) -> (r: T)
        ensures
            r == self.spec_to_range(bottom, top),
    ;

    /// Maps a value between `bottom` and `top` onto its position in `0..1`.
    fn from_range(self, bottom: T, top: T) -> (r: T)
        ensures
            r == self.spec_from_range(bottom, top),
    ;

    /// Decibels to a linear amplitude factor.
    fn db_to_lin(self) -> (r: T)
        ensures
            r == self.spec_db_to_lin(),
    ;

    /// A linear amplitude factor to decibels; negative factors count as zero.
    fn lin_to_db(self) -> (r: T)
        ensures
            r == self.spec_lin_to_db(),
    ;

    /// `self` with its sign flipped where `b` is negative.
    fn sign(self, b: T) -> (r: T)
        ensures
            r == self.spec_sign(b),
    ;

    /// A bandwidth in octaves to the quality factor of a second-order stage.
    /// Centre frequency and sample rate do not enter the result.
    fn bandwidth_to_q(self, f0: T, fs: T) -> (r: T)
        ensures
            r == self.spec_bandwidth_to_q(),
    ;
}

impl<T: FP> Units<T> for T {
    /// `self * (top - bottom) + bottom`
    open spec fn spec_to_range(self, bottom: T, top: T) -> T {
        self.spec_mul(top.spec_sub(bottom)).spec_add(bottom)
    }

    /// `(self - bottom) / (top - bottom)`
    open spec fn spec_from_range(self, bottom: T, top: T) -> T {
        self.spec_sub(bottom).spec_div(top.spec_sub(bottom))
    }

    /// `10 ^ (self / 20)`
    open spec fn spec_db_to_lin(self) -> T {
        T::spec_from_usize(10).spec_powf(self.spec_mul(T::spec_twentieth()))
    }

    /// `20 * log10(max(self, 0))`
    open spec fn spec_lin_to_db(self) -> T {
        self.spec_max(T::spec_from_usize(0)).spec_log10().spec_mul(T::spec_from_usize(20))
    }

    open spec fn spec_sign(self, b: T) -> T {
        if b.spec_lt(T::spec_from_usize(0)) {
            self.spec_neg()
        } else {
            self
        }
    }

    /// `1 / (2 * sinh(ln 2 / 2 * self))`
    open spec fn spec_bandwidth_to_q(self) -> T {
        let two = T::spec_from_usize(2);
        T::spec_from_usize(1).spec_div(
            two.spec_mul(T::spec_ln_2().spec_div(two).spec_mul(self).spec_sinh()),
        )
    }

    fn to_range(self, bottom: T, top: T) -> (r: T) {
        self.mul(top.sub(bottom)).add(bottom)
    }

    fn from_range(self, bottom: T, top: T) -> (r: T) {
        self.sub(bottom).div(top.sub(bottom))
    }

    fn db_to_lin(self) -> (r: T) {
        T::from_usize(10).powf(self.mul(T::twentieth()))
    }

    fn lin_to_db(self) -> (r: T) {
        self.max(T::from_usize(0)).log10().mul(T::from_usize(20))
    }

    fn sign(self, b: T) -> (r: T) {
        if b.lt(T::from_usize(0)) {
            self.neg()
        } else {
            self
        }
    }

    fn bandwidth_to_q(self, _f0: T, _fs: T) -> (r: T) {
        let two = T::from_usize(2);
        T::from_usize(1).div(two.mul(T::ln_2().div(two).mul(self).sinh()))
    }
}

/// The point `e^(-i * tau * f / fs)` on the unit circle, at which a filter's
/// transfer function is read for the frequency `f`.
pub open spec fn spec_unit_circle_point<T: FP>(frequency_hz: T, sample_rate_hz: T) -> Complex<T> {
    let angle = T::spec_tau().spec_neg().spec_mul(frequency_hz).spec_div(sample_rate_hz);
    Complex::spec_new(T::spec_from_usize(0), T::spec_from_usize(1)).spec_rmul(
        angle.spec_sin(),
    ).spec_radd(angle.spec_cos())
}

/// A point on the unit circle together with its square.
#[derive(Debug)]
pub struct ZSample<T: FP> {
    pub pow1: Complex<T>,
    pub pow2: Complex<T>,
}

impl<T: FP> Copy for ZSample<T> {

}

impl<T: FP> Clone for ZSample<T> {
    fn clone(&self) -> (r: Self)
        ensures
            r == *self,
    {
        *self
    }
}

impl<T: FP> ZSample<T> {
    pub open spec fn spec_new(frequency_hz: T, sample_rate_hz: T) -> ZSample<T> {
        let z = spec_unit_circle_point(frequency_hz, sample_rate_hz);
        ZSample { pow1: z, pow2: z.spec_mul(z) }
    }

    /// The unit-circle point for `frequency_hz` at `sample_rate_hz`, and its
    /// square.
    pub fn new(frequency_hz: T, sample_rate_hz: T) -> (r: ZSample<T>)
        ensures
            r == Self::spec_new(frequency_hz, sample_rate_hz),
    {
        let angle = T::tau().neg().mul(frequency_hz).div(sample_rate_hz);
        let z = Complex::new(T::from_usize(0), T::from_usize(1)).rmul(angle.sin()).radd(
            angle.cos(),
        );
        ZSample { pow1: z, pow2: z.mul(z) }
    }
}

/// The angle of a pole pair of the Butterworth filter of order `filter_order`:
/// pair `pole` of an even order sits at `(pole + 1/2) * pi / order`; pair
/// `pole >= 1` of an odd order sits at `pole * pi / order`.
pub open spec fn spec_butterworth_angle<T: FP>(filter_order: usize, pole: usize) -> T {
    let pole_inc = T::spec_pi().spec_div(T::spec_from_usize(filter_order));
    if filter_order % 2 == 0 {
        pole_inc.spec_mul(T::spec_half()).spec_add(T::spec_from_usize(pole).spec_mul(pole_inc))
    } else {
        pole_inc.spec_add(T::spec_from_usize((pole - 1) as usize).spec_mul(pole_inc))
    }
}

/// The quality factor of stage `pole` in a maximally flat cascade of order
/// `filter_order`: one half for the lone real pole of an odd order, and
/// `1 / (2 * cos(angle))` for a pole pair.
pub open spec fn spec_butterworth_cascade_q<T: FP>(filter_order: usize, pole: usize) -> T {
    if filter_order % 2 == 1 && pole == 0 {
        T::spec_half()
    } else {
        T::spec_from_usize(1).spec_div(
            T::spec_from_usize(2).spec_mul(
                spec_butterworth_angle::<T>(filter_order, pole).spec_cos(),
            ),
        )
    }
}

/// The quality factor of stage `pole` in a Butterworth cascade of order
/// `filter_order`. For an odd order, stage 0 is the real pole, which a
/// first-order stage realises; its factor is one half.
pub fn butterworth_cascade_q<T: FP>(filter_order: usize, pole: usize) -> (q: T)
    ensures
        q == spec_butterworth_cascade_q::<T>(filter_order, pole),
{
    let pole_inc = T::pi().div(T::from_usize(filter_order));
    let first_angle = if filter_order % 2 == 0 {
        pole_inc.mul(T::half())
    } else {
        if pole == 0 {
            return T::half();
        }
        pole_inc
    };
    let steps: usize = if filter_order % 2 == 0 {
        pole
    } else {
        pole - 1
    };
    let angle = first_angle.add(T::from_usize(steps).mul(pole_inc));
    T::from_usize(1).div(T::from_usize(2).mul(angle.cos()))
}

} // verus!
