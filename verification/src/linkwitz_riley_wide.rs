use vstd::prelude::*;

use crate::filter_band::{BandModel, ProcessType};
use crate::filter_band_wide::{WideFilterBand, WideFilterBandCoefficients};
use crate::wide_units::WIDE;

verus! {

/// The coefficients of a Linkwitz-Riley band that filters one signal per
/// lane: those of the band that is run twice in series. The result has twice
/// the order and twice the gain of that band.
#[derive(Debug)]
pub struct WideLinkwitzRileyCoefficients<T: WIDE> {
    pub coeffs: WideFilterBandCoefficients<T>,
}

impl<T: WIDE> Copy for WideLinkwitzRileyCoefficients<T> {

}

impl<T: WIDE> Clone for WideLinkwitzRileyCoefficients<T> {
    fn clone(&self) -> (r: Self)
        ensures
            r == *self,
    {
        *self
    }
}

impl<T: WIDE> WideLinkwitzRileyCoefficients<T> {
    pub fn from(coeffs: WideFilterBandCoefficients<T>) -> (r: Self)
        ensures
            r.coeffs == coeffs,
    {
        WideLinkwitzRileyCoefficients { coeffs }
    }
}

/// A Linkwitz-Riley band that filters one signal per lane: two bands with the
/// same coefficients and their own memories, the second filtering what the
/// first puts out.
#[derive(Debug)]
pub struct WideLinkwitzRileyBand<T: WIDE> {
    pub filter1: WideFilterBand<T>,
    pub filter2: WideFilterBand<T>,
    pub process: ProcessType,
}

impl<T: WIDE> Copy for WideLinkwitzRileyBand<T> {

}

impl<T: WIDE> Clone for WideLinkwitzRileyBand<T> {
    fn clone(&self) -> (r: Self)
        ensures
            r == *self,
    {
        *self
    }
}

impl<T: WIDE> WideLinkwitzRileyBand<T> {
    /// Two bands at rest, each built from the coefficients as
    /// `WideFilterBand::from` builds it.
    pub fn from(lw_coeffs: &WideLinkwitzRileyCoefficients<T>) -> (r: WideLinkwitzRileyBand<T>)
        ensures
            r.process == lw_coeffs.coeffs.process,
            forall|i: usize|
                i < T::spec_lanes() ==> #[trigger] r.filter1.spec_lane(i) == BandModel::spec_from(
                    lw_coeffs.coeffs.spec_lane(i),
                ),
            forall|i: usize|
                i < T::spec_lanes() ==> #[trigger] r.filter2.spec_lane(i) == BandModel::spec_from(
                    lw_coeffs.coeffs.spec_lane(i),
                ),
    {
        WideLinkwitzRileyBand {
            filter1: WideFilterBand::from(&lw_coeffs.coeffs),
            filter2: WideFilterBand::from(&lw_coeffs.coeffs),
            process: lw_coeffs.coeffs.process,
        }
    }

    /// Runs the first-order stage of the first band, then that of the second,
    /// in every lane.
    pub fn process_iir1_only(&mut self, x: T) -> (y: T)
        ensures
            final(self).process == old(self).process,
            forall|i: usize|
                i < T::spec_lanes() ==> #[trigger] final(self).filter1.spec_lane(i) == old(
                    self,
                ).filter1.spec_lane(i).spec_after_iir1_only(x.spec_lane(i)),
            forall|i: usize|
                i < T::spec_lanes() ==> #[trigger] final(self).filter2.spec_lane(i) == old(
                    self,
                ).filter2.spec_lane(i).spec_after_iir1_only(
                    old(self).filter1.spec_lane(i).spec_output_iir1_only(x.spec_lane(i)),
                ),
            forall|i: usize|
                i < T::spec_lanes() ==> #[trigger] y.spec_lane(i) == old(self).filter2.spec_lane(
                    i,
                ).spec_output_iir1_only(
                    old(self).filter1.spec_lane(i).spec_output_iir1_only(x.spec_lane(i)),
                ),
    {
        let x1 = self.filter1.process_iir1_only(x);
        self.filter2.process_iir1_only(x1)
    }

    /// Runs stage 0 of the first band, then stage 0 of the second, in every
    /// lane.
    pub fn process_iir2_only(&mut self, x: T) -> (y: T)
        ensures
            final(self).process == old(self).process,
            forall|i: usize|
                i < T::spec_lanes() ==> #[trigger] final(self).filter1.spec_lane(i) == old(
                    self,
                ).filter1.spec_lane(i).spec_after_iir2_only(x.spec_lane(i)),
            forall|i: usize|
                i < T::spec_lanes() ==> #[trigger] final(self).filter2.spec_lane(i) == old(
                    self,
                ).filter2.spec_lane(i).spec_after_iir2_only(
                    old(self).filter1.spec_lane(i).spec_output_iir2_only(x.spec_lane(i)),
                ),
            forall|i: usize|
                i < T::spec_lanes() ==> #[trigger] y.spec_lane(i) == old(self).filter2.spec_lane(
                    i,
                ).spec_output_iir2_only(
                    old(self).filter1.spec_lane(i).spec_output_iir2_only(x.spec_lane(i)),
                ),
    {
        let x1 = self.filter1.process_iir2_only(x);
        self.filter2.process_iir2_only(x1)
    }

    /// Runs the cascade of the first band, then that of the second, in every
    /// lane.
    pub fn process_even_order_cascade(&mut self, x: T) -> (y: T)
        ensures
            final(self).process == old(self).process,
            forall|i: usize|
                i < T::spec_lanes() ==> #[trigger] final(self).filter1.spec_lane(i) == old(
                    self,
                ).filter1.spec_lane(i).spec_after_even_order_cascade(x.spec_lane(i)),
            forall|i: usize|
                i < T::spec_lanes() ==> #[trigger] final(self).filter2.spec_lane(i) == old(
                    self,
                ).filter2.spec_lane(i).spec_after_even_order_cascade(
                    old(self).filter1.spec_lane(i).spec_output_even_order_cascade(x.spec_lane(i)),
                ),
            forall|i: usize|
                i < T::spec_lanes() ==> #[trigger] y.spec_lane(i) == old(self).filter2.spec_lane(
                    i,
                ).spec_output_even_order_cascade(
                    old(self).filter1.spec_lane(i).spec_output_even_order_cascade(x.spec_lane(i)),
                ),
    {
        let x1 = self.filter1.process_even_order_cascade(x);
        self.filter2.process_even_order_cascade(x1)
    }

    /// Runs the first-order stage and the cascade of the first band, then
    /// those of the second, in every lane.
    pub fn process_odd_order_cascade(&mut self, x: T) -> (y: T)
        ensures
            final(self).process == old(self).process,
            forall|i: usize|
                i < T::spec_lanes() ==> #[trigger] final(self).filter1.spec_lane(i) == old(
                    self,
                ).filter1.spec_lane(i).spec_after_odd_order_cascade(x.spec_lane(i)),
            forall|i: usize|
                i < T::spec_lanes() ==> #[trigger] final(self).filter2.spec_lane(i) == old(
                    self,
                ).filter2.spec_lane(i).spec_after_odd_order_cascade(
                    old(self).filter1.spec_lane(i).spec_output_odd_order_cascade(x.spec_lane(i)),
                ),
            forall|i: usize|
                i < T::spec_lanes() ==> #[trigger] y.spec_lane(i) == old(self).filter2.spec_lane(
                    i,
                ).spec_output_odd_order_cascade(
                    old(self).filter1.spec_lane(i).spec_output_odd_order_cascade(x.spec_lane(i)),
                ),
    {
        let x1 = self.filter1.process_odd_order_cascade(x);
        self.filter2.process_odd_order_cascade(x1)
    }

    /// Filters one sample in every lane with the routine that `get_process`
    /// names: the first band runs that routine on the sample, the second
    /// runs it on what the first put out.
    pub fn process(&mut self, x: T) -> (y: T)
        ensures
            final(self).process == old(self).process,
            forall|i: usize|
                i < T::spec_lanes() ==> #[trigger] final(self).filter1.spec_lane(i) == old(
                    self,
                ).filter1.spec_lane(i).spec_after_by(old(self).process, x.spec_lane(i)),
            forall|i: usize|
                i < T::spec_lanes() ==> #[trigger] final(self).filter2.spec_lane(i) == old(
                    self,
                ).filter2.spec_lane(i).spec_after_by(
                    old(self).process,
                    old(self).filter1.spec_lane(i).spec_output_by(
                        old(self).process,
                        x.spec_lane(i),
                    ),
                ),
            forall|i: usize|
                i < T::spec_lanes() ==> #[trigger] y.spec_lane(i) == old(self).filter2.spec_lane(
                    i,
                ).spec_output_by(
                    old(self).process,
                    old(self).filter1.spec_lane(i).spec_output_by(
                        old(self).process,
                        x.spec_lane(i),
                    ),
                ),
    {
        match self.process {
            ProcessType::ProcessIIR1Only => self.process_iir1_only(x),
            ProcessType::ProcessIIR2Only => self.process_iir2_only(x),
            ProcessType::ProcessEvenOrderCascade => self.process_even_order_cascade(x),
            ProcessType::ProcessOddOrderCascade => self.process_odd_order_cascade(x),
        }
    }

    /// The routine in use.
    pub fn get_process(&self) -> (r: ProcessType)
        ensures
            r == self.process,
    {
        self.process
    }

    /// Gives both bands the coefficients of `lw_coeffs`, as
    /// `WideFilterBand::update` does, and takes over the routine. Every
    /// memory stays as it is.
    pub fn update(&mut self, lw_coeffs: &WideLinkwitzRileyCoefficients<T>)
        ensures
            final(self).process == lw_coeffs.coeffs.process,
            forall|i: usize|
                i < T::spec_lanes() ==> #[trigger] final(self).filter1.spec_lane(i) == old(
                    self,
                ).filter1.spec_lane(i).spec_update(lw_coeffs.coeffs.spec_lane(i)),
            forall|i: usize|
                i < T::spec_lanes() ==> #[trigger] final(self).filter2.spec_lane(i) == old(
                    self,
                ).filter2.spec_lane(i).spec_update(lw_coeffs.coeffs.spec_lane(i)),
    {
        self.filter1.update(&lw_coeffs.coeffs);
        self.filter2.update(&lw_coeffs.coeffs);
        self.process = lw_coeffs.coeffs.process;
    }
}

} // verus!
