use vstd::prelude::*;

use crate::complex::Complex;
use crate::first_order_iir::{gain_factor, spec_gain_factor, spec_warped_cutoff, warped_cutoff};
use crate::units::{cast, spec_cast, ZSample, FP};
use crate::MAX_POLE_COUNT;

verus! {

/// Coefficients of a second-order state-variable stage.
#[derive(Debug)]
pub struct IIR2Coefficients<T: FP> {
    pub a: T,
    pub g: T,
    pub gpow2: T,
    pub k: T,
    pub a1: T,
    pub a2: T,
    pub a3: T,
    pub m0: T,
    pub m1: T,
    pub m2: T,
    pub fs: T,
}

impl<T: FP> Copy for IIR2Coefficients<T> {

}

impl<T: FP> Clone for IIR2Coefficients<T> {
    fn clone(&self) -> (r: Self)
        ensures
            r == *self,
    {
        *self
    }
}

impl<T: FP> IIR2Coefficients<T> {
    /// The coefficient set with gain factor `a`, integrator gain `g`, damping
    /// `k` and mixing weights `m0`, `m1`, `m2`:
    /// `a1 = 1 / (1 + g * (g + k))`, `a2 = g * a1`, `a3 = g * a2`.
    pub open spec fn spec_assemble(a: T, g: T, k: T, m0: T, m1: T, m2: T, fs: T) -> Self {
        let one = T::spec_from_usize(1);
        let a1 = one.spec_div(one.spec_add(g.spec_mul(g.spec_add(k))));
        let a2 = g.spec_mul(a1);
        let a3 = g.spec_mul(a2);
        IIR2Coefficients { a, g, gpow2: g.spec_mul(g), k, a1, a2, a3, m0, m1, m2, fs }
    }

    pub open spec fn spec_empty() -> Self {
        let zero = T::spec_from_usize(0);
        IIR2Coefficients {
            a: zero,
            g: zero,
            gpow2: zero,
            k: zero,
            a1: zero,
            a2: zero,
            a3: zero,
            m0: zero,
            m1: zero,
            m2: zero,
            fs: zero,
        }
    }

    /// `k = 1 / q`, `m0 = 0`, `m1 = 0`, `m2 = 1`
    pub open spec fn spec_lowpass(f0: T, q_value: T, fs: T) -> Self {
        let one = T::spec_from_usize(1);
        let zero = T::spec_from_usize(0);
        Self::spec_assemble(
            one,
            spec_warped_cutoff(f0, fs),
            one.spec_div(q_value),
            zero,
            zero,
            one,
            fs,
        )
    }

    /// `k = 1 / q`, `m0 = 1`, `m1 = -k`, `m2 = -1`
    pub open spec fn spec_highpass(f0: T, q_value: T, fs: T) -> Self {
        let one = T::spec_from_usize(1);
        let k = one.spec_div(q_value);
        Self::spec_assemble(
            one,
            spec_warped_cutoff(f0, fs),
            k,
            one,
            k.spec_neg(),
            one.spec_neg(),
            fs,
        )
    }

    /// `k = 1 / q`, `m0 = 0`, `m1 = 1`, `m2 = 0`
    pub open spec fn spec_bandpass(f0: T, q_value: T, fs: T) -> Self {
        let one = T::spec_from_usize(1);
        let zero = T::spec_from_usize(0);
        Self::spec_assemble(
            one,
            spec_warped_cutoff(f0, fs),
            one.spec_div(q_value),
            zero,
            one,
            zero,
            fs,
        )
    }

    /// `k = 1 / q`, `m0 = 1`, `m1 = -k`, `m2 = 0`
    pub open spec fn spec_notch(f0: T, q_value: T, fs: T) -> Self {
        let one = T::spec_from_usize(1);
        let k = one.spec_div(q_value);
        Self::spec_assemble(
            one,
            spec_warped_cutoff(f0, fs),
            k,
            one,
            k.spec_neg(),
            T::spec_from_usize(0),
            fs,
        )
    }

    /// `k = 1 / q`, `m0 = 1`, `m1 = -2 * k`, `m2 = 0`
    pub open spec fn spec_allpass(f0: T, q_value: T, fs: T) -> Self {
        let one = T::spec_from_usize(1);
        let k = one.spec_div(q_value);
        Self::spec_assemble(
            one,
            spec_warped_cutoff(f0, fs),
            k,
            one,
            T::spec_from_usize(2).spec_neg().spec_mul(k),
            T::spec_from_usize(0),
            fs,
        )
    }

    /// `a = 10 ^ (db_gain / 40)`, `g = tan(pi * f0 / fs) / sqrt(a)`,
    /// `k = 1 / q`, `m0 = 1`, `m1 = k * (a - 1)`, `m2 = a^2 - 1`
    pub open spec fn spec_lowshelf(f0: T, db_gain: T, q_value: T, fs: T) -> Self {
        let one = T::spec_from_usize(1);
        let a = spec_gain_factor(db_gain, 40);
        let k = one.spec_div(q_value);
        Self::spec_assemble(
            a,
            spec_warped_cutoff(f0, fs).spec_div(a.spec_sqrt()),
            k,
            one,
            k.spec_mul(a.spec_sub(one)),
            a.spec_mul(a).spec_sub(one),
            fs,
        )
    }

    /// `a = 10 ^ (db_gain / 40)`, `g = tan(pi * f0 / fs) * sqrt(a)`,
    /// `k = 1 / q`, `m0 = a^2`, `m1 = k * (1 - a) * a`, `m2 = 1 - a^2`
    pub open spec fn spec_highshelf(f0: T, db_gain: T, q_value: T, fs: T) -> Self {
        let one = T::spec_from_usize(1);
        let a = spec_gain_factor(db_gain, 40);
        let k = one.spec_div(q_value);
        Self::spec_assemble(
            a,
            spec_warped_cutoff(f0, fs).spec_mul(a.spec_sqrt()),
            k,
            a.spec_mul(a),
            k.spec_mul(one.spec_sub(a)).spec_mul(a),
            one.spec_sub(a.spec_mul(a)),
            fs,
        )
    }

    /// `a = 10 ^ (db_gain / 40)`, `k = 1 / (q * a)`, `m0 = 1`,
    /// `m1 = k * (a^2 - 1)`, `m2 = 0`
    pub open spec fn spec_bell(f0: T, db_gain: T, q_value: T, fs: T) -> Self {
        let one = T::spec_from_usize(1);
        let a = spec_gain_factor(db_gain, 40);
        let k = one.spec_div(q_value.spec_mul(a));
        Self::spec_assemble(
            a,
            spec_warped_cutoff(f0, fs),
            k,
            one,
            k.spec_mul(a.spec_mul(a).spec_sub(one)),
            T::spec_from_usize(0),
            fs,
        )
    }

    /// The same coefficients in another sample type, each rounded to the
    /// nearest sample of that type; `gpow2` is squared anew from the rounded
    /// `g`.
    pub open spec fn spec_cast<B: FP>(self) -> IIR2Coefficients<B> {
        IIR2Coefficients {
            a: spec_cast::<T, B>(self.a),
            g: spec_cast::<T, B>(self.g),
            gpow2: spec_cast::<T, B>(self.g).spec_mul(spec_cast::<T, B>(self.g)),
            k: spec_cast::<T, B>(self.k),
            a1: spec_cast::<T, B>(self.a1),
            a2: spec_cast::<T, B>(self.a2),
            a3: spec_cast::<T, B>(self.a3),
            m0: spec_cast::<T, B>(self.m0),
            m1: spec_cast::<T, B>(self.m1),
            m2: spec_cast::<T, B>(self.m2),
            fs: spec_cast::<T, B>(self.fs),
        }
    }

    /// `v3 = x - s2` for the second integrator memory `s2` and the input `x`.
    pub open spec fn spec_v3(self, s2: T, x: T) -> T {
        x.spec_sub(s2)
    }

    /// `v1 = a1 * s1 + a2 * v3`, the band-pass output.
    pub open spec fn spec_v1(self, s1: T, s2: T, x: T) -> T {
        self.a1.spec_mul(s1).spec_add(self.a2.spec_mul(self.spec_v3(s2, x)))
    }

    /// `v2 = s2 + a2 * s1 + a3 * v3`, the low-pass output.
    pub open spec fn spec_v2(self, s1: T, s2: T, x: T) -> T {
        s2.spec_add(self.a2.spec_mul(s1)).spec_add(self.a3.spec_mul(self.spec_v3(s2, x)))
    }

    /// The first integrator memory after the input `x`: `2 * v1 - s1`.
    pub open spec fn spec_next_state1(self, s1: T, s2: T, x: T) -> T {
        T::spec_from_usize(2).spec_mul(self.spec_v1(s1, s2, x)).spec_sub(s1)
    }

    /// The second integrator memory after the input `x`: `2 * v2 - s2`.
    pub open spec fn spec_next_state2(self, s1: T, s2: T, x: T) -> T {
        T::spec_from_usize(2).spec_mul(self.spec_v2(s1, s2, x)).spec_sub(s2)
    }

    /// The stage's output for the input `x`: `m0 * x + m1 * v1 + m2 * v2`.
    pub open spec fn spec_output(self, s1: T, s2: T, x: T) -> T {
        self.m0.spec_mul(x).spec_add(self.m1.spec_mul(self.spec_v1(s1, s2, x))).spec_add(
            self.m2.spec_mul(self.spec_v2(s1, s2, x)),
        )
    }

    /// `(g^2 + g * k + 1) + 2 * (g^2 - 1) * z + (g^2 - g * k + 1) * z^2`
    pub open spec fn spec_bode_denominator(self, z: ZSample<T>) -> Complex<T> {
        let one = T::spec_from_usize(1);
        let two = T::spec_from_usize(2);
        let gk = self.g.spec_mul(self.k);
        z.pow1.spec_rmul(two.spec_mul(self.gpow2.spec_sub(one))).spec_radd(
            self.gpow2.spec_add(gk).spec_add(one),
        ).spec_add(z.pow2.spec_rmul(self.gpow2.spec_sub(gk).spec_add(one)))
    }

    /// `m1 * g * (1 - z^2) + m2 * g^2 * (1 + 2 * z + z^2)`
    pub open spec fn spec_bode_numerator(self, z: ZSample<T>) -> Complex<T> {
        let one = T::spec_from_usize(1);
        let two = T::spec_from_usize(2);
        z.pow2.spec_rsub(one).spec_rmul(self.m1.spec_mul(self.g)).spec_add(
            z.pow1.spec_rmul(two).spec_radd(one).spec_add(z.pow2).spec_rmul(
                self.m2.spec_mul(self.gpow2),
            ),
        )
    }

    /// The transfer function at the unit-circle point `z`:
    /// `m0 + numerator / denominator`.
    pub open spec fn spec_bode_sample(self, z: ZSample<T>) -> Complex<T> {
        self.spec_bode_numerator(z).spec_div(self.spec_bode_denominator(z)).spec_radd(self.m0)
    }

    fn assemble(a: T, g: T, k: T, m0: T, m1: T, m2: T, fs: T) -> (r: Self)
        ensures
            r == Self::spec_assemble(a, g, k, m0, m1, m2, fs),
    {
        let one = T::from_usize(1);
        let a1 = one.div(one.add(g.mul(g.add(k))));
        let a2 = g.mul(a1);
        let a3 = g.mul(a2);
        IIR2Coefficients { a, g, gpow2: g.mul(g), k, a1, a2, a3, m0, m1, m2, fs }
    }

    /// The same coefficients in another sample type, each rounded to the
    /// nearest sample of that type; `gpow2` is squared anew from the rounded
    /// `g`.
    pub fn cast<B: FP>(self) -> (r: IIR2Coefficients<B>)
        ensures
            r == self.spec_cast::<B>(),
    {
        let g = cast::<T, B>(self.g);
        IIR2Coefficients {
            a: cast::<T, B>(self.a),
            g,
            gpow2: g.mul(g),
            k: cast::<T, B>(self.k),
            a1: cast::<T, B>(self.a1),
            a2: cast::<T, B>(self.a2),
            a3: cast::<T, B>(self.a3),
            m0: cast::<T, B>(self.m0),
            m1: cast::<T, B>(self.m1),
            m2: cast::<T, B>(self.m2),
            fs: cast::<T, B>(self.fs),
        }
    }

    /// The stage's complex response at the unit-circle point `z`. Its norm is
    /// the amplitude, its argument the phase.
    pub fn get_bode_sample(self, z: ZSample<T>) -> (y: Complex<T>)
        ensures
            y == self.spec_bode_sample(z),
    {
        let one = T::from_usize(1);
        let two = T::from_usize(2);
        let gk = self.g.mul(self.k);
        let denominator = z.pow1.rmul(two.mul(self.gpow2.sub(one))).radd(
            self.gpow2.add(gk).add(one),
        ).add(z.pow2.rmul(self.gpow2.sub(gk).add(one)));
        let numerator = z.pow2.rsub(one).rmul(self.m1.mul(self.g)).add(
            z.pow1.rmul(two).radd(one).add(z.pow2).rmul(self.m2.mul(self.gpow2)),
        );
        numerator.div(denominator).radd(self.m0)
    }

    /// The coefficient set whose every entry is zero.
    pub fn empty() -> (r: IIR2Coefficients<T>)
        ensures
            r == Self::spec_empty(),
    {
        let zero = T::from_usize(0);
        IIR2Coefficients {
            a: zero,
            g: zero,
            gpow2: zero,
            k: zero,
            a1: zero,
            a2: zero,
            a3: zero,
            m0: zero,
            m1: zero,
            m2: zero,
            fs: zero,
        }
    }

    /// A full cascade of zero coefficient sets.
    pub fn empty_cascade() -> (r: [IIR2Coefficients<T>; MAX_POLE_COUNT])
        ensures
            forall|i: int| 0 <= i < MAX_POLE_COUNT ==> r@[i] == Self::spec_empty(),
    {
        [Self::empty();MAX_POLE_COUNT]
    }

    /// A second-order low-pass at `f0` with quality `q_value`. A cutoff above
    /// half the sample rate is held at half the sample rate. The gain is not
    /// used.
    pub fn lowpass(f0: T, _db_gain: T, q_value: T, fs: T) -> (r: IIR2Coefficients<T>)
        ensures
            r == Self::spec_lowpass(f0, q_value, fs),
    {
        let one = T::from_usize(1);
        let zero = T::from_usize(0);
        Self::assemble(one, warped_cutoff(f0, fs), one.div(q_value), zero, zero, one, fs)
    }

    /// A second-order high-pass at `f0` with quality `q_value`. A cutoff above
    /// half the sample rate is held at half the sample rate. The gain is not
    /// used.
    pub fn highpass(f0: T, _db_gain: T, q_value: T, fs: T) -> (r: IIR2Coefficients<T>)
        ensures
            r == Self::spec_highpass(f0, q_value, fs),
    {
        let one = T::from_usize(1);
        let k = one.div(q_value);
        Self::assemble(one, warped_cutoff(f0, fs), k, one, k.neg(), one.neg(), fs)
    }

    /// A band-pass around `f0` with quality `q_value`. A centre above half the
    /// sample rate is held at half the sample rate. The gain is not used.
    pub fn bandpass(f0: T, _db_gain: T, q_value: T, fs: T) -> (r: IIR2Coefficients<T>)
        ensures
            r == Self::spec_bandpass(f0, q_value, fs),
    {
        let one = T::from_usize(1);
        let zero = T::from_usize(0);
        Self::assemble(one, warped_cutoff(f0, fs), one.div(q_value), zero, one, zero, fs)
    }

    /// A notch at `f0` with quality `q_value`. A centre above half the sample
    /// rate is held at half the sample rate. The gain is not used.
    pub fn notch(f0: T, _db_gain: T, q_value: T, fs: T) -> (r: IIR2Coefficients<T>)
        ensures
            r == Self::spec_notch(f0, q_value, fs),
    {
        let one = T::from_usize(1);
        let k = one.div(q_value);
        Self::assemble(one, warped_cutoff(f0, fs), k, one, k.neg(), T::from_usize(0), fs)
    }

    /// A second-order all-pass at `f0` with quality `q_value`. A cutoff above
    /// half the sample rate is held at half the sample rate. The gain is not
    /// used.
    pub fn allpass(f0: T, _db_gain: T, q_value: T, fs: T) -> (r: IIR2Coefficients<T>)
        ensures
            r == Self::spec_allpass(f0, q_value, fs),
    {
        let one = T::from_usize(1);
        let k = one.div(q_value);
        Self::assemble(
            one,
            warped_cutoff(f0, fs),
            k,
            one,
            T::from_usize(2).neg().mul(k),
            T::from_usize(0),
            fs,
        )
    }

    /// A second-order low shelf of `db_gain` decibels at `f0` with quality
    /// `q_value`. A cutoff above half the sample rate is held at half the
    /// sample rate.
    pub fn lowshelf(f0: T, db_gain: T, q_value: T, fs: T) -> (r: IIR2Coefficients<T>)
        ensures
            r == Self::spec_lowshelf(f0, db_gain, q_value, fs),
    {
        let one = T::from_usize(1);
        let a = gain_factor(db_gain, 40);
        let k = one.div(q_value);
        Self::assemble(
            a,
            warped_cutoff(f0, fs).div(a.sqrt()),
            k,
            one,
            k.mul(a.sub(one)),
            a.mul(a).sub(one),
            fs,
        )
    }

    /// A second-order high shelf of `db_gain` decibels at `f0` with quality
    /// `q_value`. A cutoff above half the sample rate is held at half the
    /// sample rate.
    pub fn highshelf(f0: T, db_gain: T, q_value: T, fs: T) -> (r: IIR2Coefficients<T>)
        ensures
            r == Self::spec_highshelf(f0, db_gain, q_value, fs),
    {
        let one = T::from_usize(1);
        let a = gain_factor(db_gain, 40);
        let k = one.div(q_value);
        Self::assemble(
            a,
            warped_cutoff(f0, fs).mul(a.sqrt()),
            k,
            a.mul(a),
            k.mul(one.sub(a)).mul(a),
            one.sub(a.mul(a)),
            fs,
        )
    }

    /// A bell of `db_gain` decibels around `f0` with quality `q_value`. A
    /// centre above half the sample rate is held at half the sample rate.
    pub fn bell(f0: T, db_gain: T, q_value: T, fs: T) -> (r: IIR2Coefficients<T>)
        ensures
            r == Self::spec_bell(f0, db_gain, q_value, fs),
    {
        let one = T::from_usize(1);
        let a = gain_factor(db_gain, 40);
        let k = one.div(q_value.mul(a));
        Self::assemble(
            a,
            warped_cutoff(f0, fs),
            k,
            one,
            k.mul(a.mul(a).sub(one)),
            T::from_usize(0),
            fs,
        )
    }
}

/// A second-order state-variable stage: two integrator memories and the
/// coefficients that drive them.
#[derive(Debug)]
pub struct IIR2<T: FP> {
    ic1eq: T,
    ic2eq: T,
    pub coeffs: IIR2Coefficients<T>,
}

impl<T: FP> Copy for IIR2<T> {

}

impl<T: FP> Clone for IIR2<T> {
    fn clone(&self) -> (r: Self)
        ensures
            r == *self,
    {
        *self
    }
}

impl<T: FP> IIR2<T> {
    /// The first integrator memory.
    pub closed spec fn state1(self) -> T {
        self.ic1eq
    }

    /// The second integrator memory.
    pub closed spec fn state2(self) -> T {
        self.ic2eq
    }

    /// The coefficients in use.
    pub closed spec fn coefficients(self) -> IIR2Coefficients<T> {
        self.coeffs
    }

    /// The stage with the memories `state1` and `state2` and the given
    /// coefficients.
    pub closed spec fn spec_of(state1: T, state2: T, coefficients: IIR2Coefficients<T>) -> Self {
        IIR2 { ic1eq: state1, ic2eq: state2, coeffs: coefficients }
    }

    /// The stage at rest with the given coefficients.
    pub open spec fn spec_new(coefficients: IIR2Coefficients<T>) -> Self {
        Self::spec_of(T::spec_from_usize(0), T::spec_from_usize(0), coefficients)
    }

    /// The stage after it has filtered the sample `x`.
    pub open spec fn spec_after(self, x: T) -> Self {
        Self::spec_of(
            self.coefficients().spec_next_state1(self.state1(), self.state2(), x),
            self.coefficients().spec_next_state2(self.state1(), self.state2(), x),
            self.coefficients(),
        )
    }

    /// What the stage puts out for the sample `x`.
    pub open spec fn spec_output(self, x: T) -> T {
        self.coefficients().spec_output(self.state1(), self.state2(), x)
    }

    /// The stage with other coefficients and the same memories.
    pub open spec fn spec_with_coefficients(self, coefficients: IIR2Coefficients<T>) -> Self {
        Self::spec_of(self.state1(), self.state2(), coefficients)
    }

    /// A stage holds the memories and the coefficients that it was made of.
    pub broadcast proof fn lemma_of(state1: T, state2: T, coefficients: IIR2Coefficients<T>)
        ensures
            (#[trigger] Self::spec_of(state1, state2, coefficients)).state1() == state1,
            Self::spec_of(state1, state2, coefficients).state2() == state2,
            Self::spec_of(state1, state2, coefficients).coefficients() == coefficients,
    {
    }

    /// A stage is made of its memories and its coefficients, and of nothing
    /// else.
    pub broadcast proof fn lemma_parts(self)
        ensures
            self == Self::spec_of(self.state1(), self.state2(), #[trigger] self.coefficients()),
    {
    }

    /// A stage at rest with the given coefficients.
    pub fn new(coefficients: IIR2Coefficients<T>) -> (r: Self)
        ensures
            r == Self::spec_new(coefficients),
    {
        IIR2 { ic1eq: T::from_usize(0), ic2eq: T::from_usize(0), coeffs: coefficients }
    }

    /// The coefficients in use.
    pub fn get_coefficients(&self) -> (r: IIR2Coefficients<T>)
        ensures
            r == self.coefficients(),
    {
        self.coeffs
    }

    /// Filters one sample.
    pub fn process(&mut self, input: T) -> (y: T)
        ensures
            *final(self) == old(self).spec_after(input),
            y == old(self).spec_output(input),
    {
        let v3 = input.sub(self.ic2eq);
        let v1 = self.coeffs.a1.mul(self.ic1eq).add(self.coeffs.a2.mul(v3));
        let v2 = self.ic2eq.add(self.coeffs.a2.mul(self.ic1eq)).add(self.coeffs.a3.mul(v3));
        self.ic1eq = T::from_usize(2).mul(v1).sub(self.ic1eq);
        self.ic2eq = T::from_usize(2).mul(v2).sub(self.ic2eq);
        self.coeffs.m0.mul(input).add(self.coeffs.m1.mul(v1)).add(self.coeffs.m2.mul(v2))
    }

    /// Replaces the coefficients and keeps the memories.
    pub fn update_coefficients(&mut self, new_coefficients: IIR2Coefficients<T>)
        ensures
            *final(self) == old(self).spec_with_coefficients(new_coefficients),
    {
        self.coeffs = new_coefficients;
    }
}

} // verus!
