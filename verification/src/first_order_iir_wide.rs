use vstd::prelude::*;

use crate::first_order_iir::{IIR1Coefficients, IIR1};
use crate::units::FP;
use crate::wide_units::WIDE;

verus! {

/// Coefficients of a first-order stage that filters one signal per lane.
#[derive(Debug)]
pub struct WideIIR1Coefficients<T: WIDE> {
    pub a: T,
    pub g: T,
    pub a1: T,
    pub m0: T,
    pub m1: T,
    pub fs: T,
}

impl<T: WIDE> Copy for WideIIR1Coefficients<T> {

}

impl<T: WIDE> Clone for WideIIR1Coefficients<T> {
    fn clone(&self) -> (r: Self)
        ensures
            r == *self,
    {
        *self
    }
}

impl<T: WIDE> WideIIR1Coefficients<T> {
    /// The coefficients that lane `i` filters with.
    pub open spec fn spec_lane(self, i: usize) -> IIR1Coefficients<T::Lane> {
        IIR1Coefficients {
            a: self.a.spec_lane(i),
            g: self.g.spec_lane(i),
            a1: self.a1.spec_lane(i),
            m0: self.m0.spec_lane(i),
            m1: self.m1.spec_lane(i),
            fs: self.fs.spec_lane(i),
        }
    }

    /// The same coefficients in every lane, each rounded to the nearest
    /// sample of the lanes' type.
    pub fn from<A: FP>(coeffs: IIR1Coefficients<A>) -> (r: WideIIR1Coefficients<T>)
        ensures
            forall|i: usize|
                i < T::spec_lanes() ==> #[trigger] r.spec_lane(i) == coeffs.spec_cast::<T::Lane>(),
    {
        let a = T::from_w(coeffs.a);
        let g = T::from_w(coeffs.g);
        let a1 = T::from_w(coeffs.a1);
        let m0 = T::from_w(coeffs.m0);
        let m1 = T::from_w(coeffs.m1);
        let fs = T::from_w(coeffs.fs);
        WideIIR1Coefficients { a, g, a1, m0, m1, fs }
    }
}

/// A first-order state-variable stage that filters one signal per lane.
#[derive(Debug)]
pub struct WideIIR1<T: WIDE> {
    ic1eq: T,
    pub coeffs: WideIIR1Coefficients<T>,
}

impl<T: WIDE> Copy for WideIIR1<T> {

}

impl<T: WIDE> Clone for WideIIR1<T> {
    fn clone(&self) -> (r: Self)
        ensures
            r == *self,
    {
        *self
    }
}

impl<T: WIDE> WideIIR1<T> {
    /// The integrator memories, one per lane.
    pub closed spec fn state(self) -> T {
        self.ic1eq
    }

    /// The coefficients in use.
    pub closed spec fn coefficients(self) -> WideIIR1Coefficients<T> {
        self.coeffs
    }

    /// The stage that lane `i` amounts to.
    pub open spec fn spec_lane(self, i: usize) -> IIR1<T::Lane> {
        IIR1::spec_of(self.state().spec_lane(i), self.coefficients().spec_lane(i))
    }

    /// A stage at rest in every lane.
    pub fn new(coefficients: WideIIR1Coefficients<T>) -> (r: Self)
        ensures
            r.coefficients() == coefficients,
            forall|i: usize|
                i < T::spec_lanes() ==> #[trigger] r.spec_lane(i) == IIR1::spec_new(
                    coefficients.spec_lane(i),
                ),
    {
        WideIIR1 { ic1eq: T::splat(T::Lane::from_usize(0)), coeffs: coefficients }
    }

    /// The coefficients in use.
    pub fn get_coefficients(&self) -> (r: WideIIR1Coefficients<T>)
        ensures
            r == self.coefficients(),
    {
        self.coeffs
    }

    /// Filters one sample in every lane: each lane does what the stage of
    /// that lane does with the lane's sample.
    pub fn process(&mut self, input: T) -> (y: T)
        ensures
            final(self).coefficients() == old(self).coefficients(),
            forall|i: usize|
                i < T::spec_lanes() ==> #[trigger] final(self).spec_lane(i) == old(self).spec_lane(
                    i,
                ).spec_after(input.spec_lane(i)),
            forall|i: usize|
                i < T::spec_lanes() ==> #[trigger] y.spec_lane(i) == old(self).spec_lane(
                    i,
                ).spec_output(input.spec_lane(i)),
    {
        broadcast use IIR1::lemma_of;

        let v1 = self.coeffs.a1.mul(input.sub(self.ic1eq));
        let v2 = v1.add(self.ic1eq);
        self.ic1eq = v2.add(v1);
        self.coeffs.m0.mul(input).add(self.coeffs.m1.mul(v2))
    }

    /// Advances every lane by one sample and returns the low-pass outputs
    /// `v2`, before the mixing weights are applied.
    pub fn process_partial(&mut self, input: T) -> (v2: T)
        ensures
            final(self).coefficients() == old(self).coefficients(),
            forall|i: usize|
                i < T::spec_lanes() ==> #[trigger] final(self).spec_lane(i) == old(self).spec_lane(
                    i,
                ).spec_after(input.spec_lane(i)),
            forall|i: usize|
                i < T::spec_lanes() ==> #[trigger] v2.spec_lane(i) == old(self).spec_lane(
                    i,
                ).coefficients().spec_v2(old(self).spec_lane(i).state(), input.spec_lane(i)),
    {
        broadcast use IIR1::lemma_of;

        let v1 = self.coeffs.a1.mul(input.sub(self.ic1eq));
        let v2 = v1.add(self.ic1eq);
        self.ic1eq = v2.add(v1);
        v2
    }

    /// Replaces the coefficients and keeps the memories.
    pub fn update_coefficients(&mut self, new_coefficients: WideIIR1Coefficients<T>)
        ensures
            final(self).coefficients() == new_coefficients,
            final(self).state() == old(self).state(),
    {
        self.coeffs = new_coefficients;
    }
}

} // verus!
