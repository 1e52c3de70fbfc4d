use vstd::prelude::*;

use crate::complex::Complex;
use crate::units::{cast, spec_cast, spec_unit_circle_point, FP};

verus! {

/// The unit-circle point `e^(-i * tau * f_hz / fs)` at which a transfer
/// function is read for the frequency `f_hz`.
pub fn get_z<T: FP>(f_hz: T, fs: T) -> (z: Complex<T>)
    ensures
        z == spec_unit_circle_point(f_hz, fs),
{
    let angle = T::tau().neg().mul(f_hz).div(fs);
    Complex::new(T::from_usize(0), T::from_usize(1)).rmul(angle.sin()).radd(angle.cos())
}

/// The cutoff that the coefficient formulas use: `f0`, held at half the sample
/// rate where it lies above.
pub open spec fn spec_clamped_cutoff<T: FP>(f0: T, fs: T) -> T {
    f0.spec_min(fs.spec_mul(T::spec_half()))
}

/// The prewarped cutoff `tan(pi * f0 / fs)`, with `f0` held at half the sample
/// rate.
pub open spec fn spec_warped_cutoff<T: FP>(f0: T, fs: T) -> T {
    T::spec_pi().spec_mul(spec_clamped_cutoff(f0, fs)).spec_div(fs).spec_tan()
}

/// The linear gain `10 ^ (db_gain / divisor)`.
pub open spec fn spec_gain_factor<T: FP>(db_gain: T, divisor: usize) -> T {
    T::spec_from_usize(10).spec_powf(db_gain.spec_div(T::spec_from_usize(divisor)))
}

pub fn warped_cutoff<T: FP>(f0: T, fs: T) -> (g: T)
    ensures
        g == spec_warped_cutoff(f0, fs),
{
    let f0 = f0.min(fs.mul(T::half()));
    T::pi().mul(f0).div(fs).tan()
}

pub fn gain_factor<T: FP>(db_gain: T, divisor: usize) -> (a: T)
    ensures
        a == spec_gain_factor(db_gain, divisor),
{
    T::from_usize(10).powf(db_gain.div(T::from_usize(divisor)))
}

/// Coefficients of a first-order state-variable stage.
#[derive(Debug)]
pub struct IIR1Coefficients<T: FP> {
    pub a: T,
    pub g: T,
    pub a1: T,
    pub m0: T,
    pub m1: T,
    pub fs: T,
}

impl<T: FP> Copy for IIR1Coefficients<T> {

}

impl<T: FP> Clone for IIR1Coefficients<T> {
    fn clone(&self) -> (r: Self)
        ensures
            r == *self,
    {
        *self
    }
}

impl<T: FP> IIR1Coefficients<T> {
    /// The coefficient set with gain factor `a`, integrator gain `g` and
    /// mixing weights `m0`, `m1`; `a1 = g / (1 + g)`.
    pub open spec fn spec_assemble(a: T, g: T, m0: T, m1: T, fs: T) -> Self {
        IIR1Coefficients { a, g, a1: g.spec_div(T::spec_from_usize(1).spec_add(g)), m0, m1, fs }
    }

    pub open spec fn spec_empty() -> Self {
        let zero = T::spec_from_usize(0);
        IIR1Coefficients { a: zero, g: zero, a1: zero, m0: zero, m1: zero, fs: zero }
    }

    /// `m0 = 0`, `m1 = 1`
    pub open spec fn spec_lowpass(f0: T, fs: T) -> Self {
        Self::spec_assemble(
            T::spec_from_usize(1),
            spec_warped_cutoff(f0, fs),
            T::spec_from_usize(0),
            T::spec_from_usize(1),
            fs,
        )
    }

    /// `m0 = 1`, `m1 = -1`
    pub open spec fn spec_highpass(f0: T, fs: T) -> Self {
        Self::spec_assemble(
            T::spec_from_usize(1),
            spec_warped_cutoff(f0, fs),
            T::spec_from_usize(1),
            T::spec_from_usize(1).spec_neg(),
            fs,
        )
    }

    /// `m0 = 1`, `m1 = -2`
    pub open spec fn spec_allpass(f0: T, fs: T) -> Self {
        Self::spec_assemble(
            T::spec_from_usize(1),
            spec_warped_cutoff(f0, fs),
            T::spec_from_usize(1),
            T::spec_from_usize(2).spec_neg(),
            fs,
        )
    }

    /// `a = 10 ^ (db_gain / 20)`, `g = tan(pi * f0 / fs) / sqrt(a)`, `m0 = 1`,
    /// `m1 = a - 1`
    pub open spec fn spec_lowshelf(f0: T, db_gain: T, fs: T) -> Self {
        let a = spec_gain_factor(db_gain, 20);
        Self::spec_assemble(
            a,
            spec_warped_cutoff(f0, fs).spec_div(a.spec_sqrt()),
            T::spec_from_usize(1),
            a.spec_sub(T::spec_from_usize(1)),
            fs,
        )
    }

    /// `a = 10 ^ (db_gain / 20)`, `g = tan(pi * f0 / fs) * sqrt(a)`, `m0 = a`,
    /// `m1 = 1 - a`
    pub open spec fn spec_highshelf(f0: T, db_gain: T, fs: T) -> Self {
        let a = spec_gain_factor(db_gain, 20);
        Self::spec_assemble(
            a,
            spec_warped_cutoff(f0, fs).spec_mul(a.spec_sqrt()),
            a,
            T::spec_from_usize(1).spec_sub(a),
            fs,
        )
    }

    /// The same coefficients in another sample type, each rounded to the
    /// nearest sample of that type.
    pub open spec fn spec_cast<B: FP>(self) -> IIR1Coefficients<B> {
        IIR1Coefficients {
            a: spec_cast::<T, B>(self.a),
            g: spec_cast::<T, B>(self.g),
            a1: spec_cast::<T, B>(self.a1),
            m0: spec_cast::<T, B>(self.m0),
            m1: spec_cast::<T, B>(self.m1),
            fs: spec_cast::<T, B>(self.fs),
        }
    }

    /// `v1 = a1 * (x - s)` for the integrator memory `s` and the input `x`.
    pub open spec fn spec_v1(self, s: T, x: T) -> T {
        self.a1.spec_mul(x.spec_sub(s))
    }

    /// `v2 = v1 + s`, the low-pass output of the integrator.
    pub open spec fn spec_v2(self, s: T, x: T) -> T {
        self.spec_v1(s, x).spec_add(s)
    }

    /// The integrator memory after the input `x`: `v2 + v1`.
    pub open spec fn spec_next_state(self, s: T, x: T) -> T {
        self.spec_v2(s, x).spec_add(self.spec_v1(s, x))
    }

    /// The stage's output for the input `x`: `m0 * x + m1 * v2`.
    pub open spec fn spec_output(self, s: T, x: T) -> T {
        self.m0.spec_mul(x).spec_add(self.m1.spec_mul(self.spec_v2(s, x)))
    }

    /// The transfer function at the unit-circle point `z`:
    /// `m0 + m1 * g * (z + 1) / (g + z * (g - 1) + 1)`.
    pub open spec fn spec_bode_sample(self, z: Complex<T>) -> Complex<T> {
        let one = T::spec_from_usize(1);
        let denominator = z.spec_scale(self.g.spec_sub(one)).spec_radd(self.g).spec_add_real(one);
        z.spec_add_real(one).spec_rmul(self.m1.spec_mul(self.g)).spec_div(denominator).spec_radd(
            self.m0,
        )
    }

    fn assemble(a: T, g: T, m0: T, m1: T, fs: T) -> (r: Self)
        ensures
            r == Self::spec_assemble(a, g, m0, m1, fs),
    {
        IIR1Coefficients { a, g, a1: g.div(T::from_usize(1).add(g)), m0, m1, fs }
    }

    /// The same coefficients in another sample type, each rounded to the
    /// nearest sample of that type.
    pub fn cast<B: FP>(self) -> (r: IIR1Coefficients<B>)
        ensures
            r == self.spec_cast::<B>(),
    {
        IIR1Coefficients {
            a: cast::<T, B>(self.a),
            g: cast::<T, B>(self.g),
            a1: cast::<T, B>(self.a1),
            m0: cast::<T, B>(self.m0),
            m1: cast::<T, B>(self.m1),
            fs: cast::<T, B>(self.fs),
        }
    }

    /// The stage's complex response at the unit-circle point `z`. Its norm is
    /// the amplitude, its argument the phase.
    pub fn get_bode_sample(self, z: Complex<T>) -> (y: Complex<T>)
        ensures
            y == self.spec_bode_sample(z),
    {
        let one = T::from_usize(1);
        let denominator = z.scale(self.g.sub(one)).radd(self.g).add_real(one);
        z.add_real(one).rmul(self.m1.mul(self.g)).div(denominator).radd(self.m0)
    }

    /// The coefficient set whose every entry is zero.
    pub fn empty() -> (r: IIR1Coefficients<T>)
        ensures
            r == Self::spec_empty(),
    {
        let zero = T::from_usize(0);
        IIR1Coefficients { a: zero, g: zero, a1: zero, m0: zero, m1: zero, fs: zero }
    }

    /// A first-order low-pass at `f0`. A cutoff above half the sample rate is
    /// held at half the sample rate. The gain is not used.
    pub fn lowpass(f0: T, _db_gain: T, fs: T) -> (r: IIR1Coefficients<T>)
        ensures
            r == Self::spec_lowpass(f0, fs),
    {
        Self::assemble(
            T::from_usize(1),
            warped_cutoff(f0, fs),
            T::from_usize(0),
            T::from_usize(1),
            fs,
        )
    }

    /// A first-order high-pass at `f0`. A cutoff above half the sample rate is
    /// held at half the sample rate. The gain is not used.
    pub fn highpass(f0: T, _db_gain: T, fs: T) -> (r: IIR1Coefficients<T>)
        ensures
            r == Self::spec_highpass(f0, fs),
    {
        Self::assemble(
            T::from_usize(1),
            warped_cutoff(f0, fs),
            T::from_usize(1),
            T::from_usize(1).neg(),
            fs,
        )
    }

    /// A first-order all-pass at `f0`. A cutoff above half the sample rate is
    /// held at half the sample rate. The gain is not used.
    pub fn allpass(f0: T, _db_gain: T, fs: T) -> (r: IIR1Coefficients<T>)
        ensures
            r == Self::spec_allpass(f0, fs),
    {
        Self::assemble(
            T::from_usize(1),
            warped_cutoff(f0, fs),
            T::from_usize(1),
            T::from_usize(2).neg(),
            fs,
        )
    }

    /// A first-order low shelf of `db_gain` decibels at `f0`. A cutoff above
    /// half the sample rate is held at half the sample rate.
    pub fn lowshelf(f0: T, db_gain: T, fs: T) -> (r: IIR1Coefficients<T>)
        ensures
            r == Self::spec_lowshelf(f0, db_gain, fs),
    {
        let a = gain_factor(db_gain, 20);
        Self::assemble(
            a,
            warped_cutoff(f0, fs).div(a.sqrt()),
            T::from_usize(1),
            a.sub(T::from_usize(1)),
            fs,
        )
    }

    /// A first-order high shelf of `db_gain` decibels at `f0`. A cutoff above
    /// half the sample rate is held at half the sample rate.
    pub fn highshelf(f0: T, db_gain: T, fs: T) -> (r: IIR1Coefficients<T>)
        ensures
            r == Self::spec_highshelf(f0, db_gain, fs),
    {
        let a = gain_factor(db_gain, 20);
        Self::assemble(
            a,
            warped_cutoff(f0, fs).mul(a.sqrt()),
            a,
            T::from_usize(1).sub(a),
            fs,
        )
    }
}

/// A first-order state-variable stage: one integrator memory and the
/// coefficients that drive it.
#[derive(Debug)]
pub struct IIR1<T: FP> {
    ic1eq: T,
    pub coeffs: IIR1Coefficients<T>,
}

impl<T: FP> Copy for IIR1<T> {

}

impl<T: FP> Clone for IIR1<T> {
    fn clone(&self) -> (r: Self)
        ensures
            r == *self,
    {
        *self
    }
}

impl<T: FP> IIR1<T> {
    /// The integrator memory.
    pub closed spec fn state(self) -> T {
        self.ic1eq
    }

    /// The coefficients in use.
    pub closed spec fn coefficients(self) -> IIR1Coefficients<T> {
        self.coeffs
    }

    /// The stage with the memory `state` and the given coefficients.
    pub closed spec fn spec_of(state: T, coefficients: IIR1Coefficients<T>) -> Self {
        IIR1 { ic1eq: state, coeffs: coefficients }
    }

    /// The stage at rest with the given coefficients.
    pub open spec fn spec_new(coefficients: IIR1Coefficients<T>) -> Self {
        Self::spec_of(T::spec_from_usize(0), coefficients)
    }

    /// The stage after it has filtered the sample `x`.
    pub open spec fn spec_after(self, x: T) -> Self {
        Self::spec_of(self.coefficients().spec_next_state(self.state(), x), self.coefficients())
    }

    /// What the stage puts out for the sample `x`.
    pub open spec fn spec_output(self, x: T) -> T {
        self.coefficients().spec_output(self.state(), x)
    }

    /// The stage with other coefficients and the same memory.
    pub open spec fn spec_with_coefficients(self, coefficients: IIR1Coefficients<T>) -> Self {
        Self::spec_of(self.state(), coefficients)
    }

    /// A stage holds the memory and the coefficients that it was made of.
    pub broadcast proof fn lemma_of(state: T, coefficients: IIR1Coefficients<T>)
        ensures
            (#[trigger] Self::spec_of(state, coefficients)).state() == state,
            Self::spec_of(state, coefficients).coefficients() == coefficients,
    {
    }

    /// A stage is made of its memory and its coefficients, and of nothing
    /// else.
    pub broadcast proof fn lemma_parts(self)
        ensures
            self == Self::spec_of(#[trigger] self.state(), self.coefficients()),
    {
    }

    /// A stage at rest with the given coefficients.
    pub fn new(coefficients: IIR1Coefficients<T>) -> (r: Self)
        ensures
            r == Self::spec_new(coefficients),
    {
        IIR1 { ic1eq: T::from_usize(0), coeffs: coefficients }
    }

    /// The coefficients in use.
    pub fn get_coefficients(&self) -> (r: IIR1Coefficients<T>)
        ensures
            r == self.coefficients(),
    {
        self.coeffs
    }

    /// Filters one sample.
    pub fn process(&mut self, input: T) -> (y: T)
        ensures
            *final(self) == old(self).spec_after(input),
            y == old(self).spec_output(input),
    {
        let v1 = self.coeffs.a1.mul(input.sub(self.ic1eq));
        let v2 = v1.add(self.ic1eq);
        self.ic1eq = v2.add(v1);
        self.coeffs.m0.mul(input).add(self.coeffs.m1.mul(v2))
    }

    /// Advances the stage by one sample and returns its low-pass output `v2`,
    /// before the mixing weights are applied.
    pub fn process_partial(&mut self, input: T) -> (v2: T)
        ensures
            *final(self) == old(self).spec_after(input),
            v2 == old(self).coefficients().spec_v2(old(self).state(), input),
    {
        let v1 = self.coeffs.a1.mul(input.sub(self.ic1eq));
        let v2 = v1.add(self.ic1eq);
        self.ic1eq = v2.add(v1);
        v2
    }

    /// Replaces the coefficients and keeps the memory.
    pub fn update_coefficients(&mut self, new_coefficients: IIR1Coefficients<T>)
        ensures
            *final(self) == old(self).spec_with_coefficients(new_coefficients),
    {
        self.coeffs = new_coefficients;
    }
}

} // verus!
