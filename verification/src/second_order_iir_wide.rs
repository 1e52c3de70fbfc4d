use vstd::prelude::*;

use crate::second_order_iir::{IIR2Coefficients, IIR2};
use crate::units::FP;
use crate::wide_units::WIDE;
use crate::MAX_POLE_COUNT;

verus! {

/// Coefficients of a second-order stage that filters one signal per lane.
#[derive(Debug)]
pub struct WideIIR2Coefficients<T: WIDE> {
    pub a: T,
    pub g: T,
    pub gpow2: T,
    pub k: T,
    pub a1: T,
    pub a2: T,
    pub a3: T,
    pub m0: T,
    pub m1: T,
    pub m2: T,
    pub fs: T,
}

impl<T: WIDE> Copy for WideIIR2Coefficients<T> {

}

impl<T: WIDE> Clone for WideIIR2Coefficients<T> {
    fn clone(&self) -> (r: Self)
        ensures
            r == *self,
    {
        *self
    }
}

impl<T: WIDE> WideIIR2Coefficients<T> {
    /// The coefficients that lane `i` filters with.
    pub open spec fn spec_lane(self, i: usize) -> IIR2Coefficients<T::Lane> {
        IIR2Coefficients {
            a: self.a.spec_lane(i),
            g: self.g.spec_lane(i),
            gpow2: self.gpow2.spec_lane(i),
            k: self.k.spec_lane(i),
            a1: self.a1.spec_lane(i),
            a2: self.a2.spec_lane(i),
            a3: self.a3.spec_lane(i),
            m0: self.m0.spec_lane(i),
            m1: self.m1.spec_lane(i),
            m2: self.m2.spec_lane(i),
            fs: self.fs.spec_lane(i),
        }
    }

    /// The same coefficients in every lane, each rounded to the nearest
    /// sample of the lanes' type; `gpow2` is squared anew from the rounded
    /// `g`.
    pub fn from<A: FP>(coeffs: IIR2Coefficients<A>) -> (r: WideIIR2Coefficients<T>)
        ensures
            forall|i: usize|
                i < T::spec_lanes() ==> #[trigger] r.spec_lane(i) == coeffs.spec_cast::<T::Lane>(),
    {
        let a = T::from_w(coeffs.a);
        let g = T::from_w(coeffs.g);
        let k = T::from_w(coeffs.k);
        let a1 = T::from_w(coeffs.a1);
        let a2 = T::from_w(coeffs.a2);
        let a3 = T::from_w(coeffs.a3);
        let m0 = T::from_w(coeffs.m0);
        let m1 = T::from_w(coeffs.m1);
        let m2 = T::from_w(coeffs.m2);
        let fs = T::from_w(coeffs.fs);
        WideIIR2Coefficients { a, g, gpow2: g.mul(g), k, a1, a2, a3, m0, m1, m2, fs }
    }

    /// The coefficient set whose every entry is zero in every lane.
    pub fn empty() -> (r: WideIIR2Coefficients<T>)
        ensures
            forall|i: usize|
                i < T::spec_lanes() ==> #[trigger] r.spec_lane(i) == IIR2Coefficients::<
                    T::Lane,
                >::spec_empty(),
    {
        let zero = T::splat(T::Lane::from_usize(0));
        WideIIR2Coefficients {
            a: zero,
            g: zero,
            gpow2: zero,
            k: zero,
            a1: zero,
            a2: zero,
            a3: zero,
            m0: zero,
            m1: zero,
            m2: zero,
            fs: zero,
        }
    }

    /// A full cascade of zero coefficient sets.
    pub fn empty_cascade() -> (r: [WideIIR2Coefficients<T>; MAX_POLE_COUNT])
        ensures
            forall|j: int, i: usize|
                0 <= j < MAX_POLE_COUNT && i < T::spec_lanes() ==> #[trigger] r@[j].spec_lane(i)
                    == IIR2Coefficients::<T::Lane>::spec_empty(),
    {
        [Self::empty();MAX_POLE_COUNT]
    }
}

/// A second-order state-variable stage that filters one signal per lane.
#[derive(Debug)]
pub struct WideIIR2<T: WIDE> {
    ic1eq: T,
    ic2eq: T,
    pub coeffs: WideIIR2Coefficients<T>,
}

impl<T: WIDE> Copy for WideIIR2<T> {

}

impl<T: WIDE> Clone for WideIIR2<T> {
    fn clone(&self) -> (r: Self)
        ensures
            r == *self,
    {
        *self
    }
}

impl<T: WIDE> WideIIR2<T> {
    /// The first integrator memories, one per lane.
    pub closed spec fn state1(self) -> T {
        self.ic1eq
    }

    /// The second integrator memories, one per lane.
    pub closed spec fn state2(self) -> T {
        self.ic2eq
    }

    /// The coefficients in use.
    pub closed spec fn coefficients(self) -> WideIIR2Coefficients<T> {
        self.coeffs
    }

    /// The stage that lane `i` amounts to.
    pub open spec fn spec_lane(self, i: usize) -> IIR2<T::Lane> {
        IIR2::spec_of(
            self.state1().spec_lane(i),
            self.state2().spec_lane(i),
            self.coefficients().spec_lane(i),
        )
    }

    /// A stage at rest in every lane.
    pub fn new(coefficients: WideIIR2Coefficients<T>) -> (r: Self)
        ensures
            r.coefficients() == coefficients,
            forall|i: usize|
                i < T::spec_lanes() ==> #[trigger] r.spec_lane(i) == IIR2::spec_new(
                    coefficients.spec_lane(i),
                ),
    {
        let zero = T::splat(T::Lane::from_usize(0));
        WideIIR2 { ic1eq: zero, ic2eq: zero, coeffs: coefficients }
    }

    /// The coefficients in use.
    pub fn get_coefficients(&self) -> (r: WideIIR2Coefficients<T>)
        ensures
            r == self.coefficients(),
    {
        self.coeffs
    }

    /// Filters one sample in every lane: each lane does what the stage of
    /// that lane does with the lane's sample.
    pub fn process(&mut self, input: T) -> (y: T)
        ensures
            final(self).coefficients() == old(self).coefficients(),
            forall|i: usize|
                i < T::spec_lanes() ==> #[trigger] final(self).spec_lane(i) == old(self).spec_lane(
                    i,
                ).spec_after(input.spec_lane(i)),
            forall|i: usize|
                i < T::spec_lanes() ==> #[trigger] y.spec_lane(i) == old(self).spec_lane(
                    i,
                ).spec_output(input.spec_lane(i)),
    {
        broadcast use IIR2::lemma_of;

        let two = T::splat(T::Lane::from_usize(2));
        let v3 = input.sub(self.ic2eq);
        let v1 = self.coeffs.a1.mul(self.ic1eq).add(self.coeffs.a2.mul(v3));
        let v2 = self.ic2eq.add(self.coeffs.a2.mul(self.ic1eq)).add(self.coeffs.a3.mul(v3));
        self.ic1eq = two.mul(v1).sub(self.ic1eq);
        self.ic2eq = two.mul(v2).sub(self.ic2eq);
        self.coeffs.m0.mul(input).add(self.coeffs.m1.mul(v1)).add(self.coeffs.m2.mul(v2))
    }

    /// Advances every lane by one sample and returns the band-pass outputs
    /// `v1` and the low-pass outputs `v2`, before the mixing weights are
    /// applied.
    pub fn process_partial(&mut self, input: T) -> (v: (T, T))
        ensures
            final(self).coefficients() == old(self).coefficients(),
            forall|i: usize|
                i < T::spec_lanes() ==> #[trigger] final(self).spec_lane(i) == old(self).spec_lane(
                    i,
                ).spec_after(input.spec_lane(i)),
            forall|i: usize|
                i < T::spec_lanes() ==> #[trigger] v.0.spec_lane(i) == old(self).spec_lane(
                    i,
                ).coefficients().spec_v1(
                    old(self).spec_lane(i).state1(),
                    old(self).spec_lane(i).state2(),
                    input.spec_lane(i),
                ),
            forall|i: usize|
                i < T::spec_lanes() ==> #[trigger] v.1.spec_lane(i) == old(self).spec_lane(
                    i,
                ).coefficients().spec_v2(
                    old(self).spec_lane(i).state1(),
                    old(self).spec_lane(i).state2(),
                    input.spec_lane(i),
                ),
    {
        broadcast use IIR2::lemma_of;

        let two = T::splat(T::Lane::from_usize(2));
        let v3 = input.sub(self.ic2eq);
        let v1 = self.coeffs.a1.mul(self.ic1eq).add(self.coeffs.a2.mul(v3));
        let v2 = self.ic2eq.add(self.coeffs.a2.mul(self.ic1eq)).add(self.coeffs.a3.mul(v3));
        self.ic1eq = two.mul(v1).sub(self.ic1eq);
        self.ic2eq = two.mul(v2).sub(self.ic2eq);
        (v1, v2)
    }

    /// Replaces the coefficients and keeps the memories.
    pub fn update_coefficients(&mut self, new_coefficients: WideIIR2Coefficients<T>)
        ensures
            final(self).coefficients() == new_coefficients,
            final(self).state1() == old(self).state1(),
            final(self).state2() == old(self).state2(),
    {
        self.coeffs = new_coefficients;
    }
}

} // verus!
