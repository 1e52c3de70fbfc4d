use vstd::prelude::*;

use crate::complex::Complex;
use crate::filter_band::{FilterBand, FilterBandCoefficients, ProcessType};
use crate::units::{ZSample, FP};

verus! {

/// The coefficients of a Linkwitz-Riley band: those of the band that is run
/// twice in series. The result has twice the order and twice the gain of that
/// band.
#[derive(Debug)]
pub struct LinkwitzRileyCoefficients<T: FP> {
    pub coeffs: FilterBandCoefficients<T>,
}

impl<T: FP> Copy for LinkwitzRileyCoefficients<T> {

}

impl<T: FP> Clone for LinkwitzRileyCoefficients<T> {
    fn clone(&self) -> (r: Self)
        ensures
            r == *self,
    {
        *self
    }
}

impl<T: FP> LinkwitzRileyCoefficients<T> {
    /// The complex response at a unit-circle point: the square of the
    /// response of the band that is run twice.
    pub fn get_bode_sample(&self, z: ZSample<T>) -> (y: Complex<T>)
        ensures
            y == self.coeffs@.spec_bode_sample(z).spec_mul(self.coeffs@.spec_bode_sample(z)),
    {
        self.coeffs.get_bode_sample(z).mul(self.coeffs.get_bode_sample(z))
    }

    pub fn from(coeffs: FilterBandCoefficients<T>) -> (r: Self)
        ensures
            r.coeffs == coeffs,
    {
        LinkwitzRileyCoefficients { coeffs }
    }
}

/// A Linkwitz-Riley band: two bands with the same coefficients and their own
/// memories, the second filtering what the first puts out.
#[derive(Debug)]
pub struct LinkwitzRileyBand<T: FP> {
    pub filter1: FilterBand<T>,
    pub filter2: FilterBand<T>,
    pub process: ProcessType,
}

impl<T: FP> Copy for LinkwitzRileyBand<T> {

}

impl<T: FP> Clone for LinkwitzRileyBand<T> {
    fn clone(&self) -> (r: Self)
        ensures
            r == *self,
    {
        *self
    }
}

impl<T: FP> LinkwitzRileyBand<T> {
    /// Two bands at rest, each built from the coefficients as
    /// `FilterBand::from` builds it.
    pub fn from(lw_coeffs: &LinkwitzRileyCoefficients<T>) -> (r: LinkwitzRileyBand<T>)
        ensures
            r.filter1 == r.filter2,
            r.filter1@ == crate::filter_band::BandModel::spec_from(lw_coeffs.coeffs@),
            r.process == lw_coeffs.coeffs.process,
    {
        let filter1 = FilterBand::from(&lw_coeffs.coeffs);
        let filter2 = FilterBand::from(&lw_coeffs.coeffs);
        proof {
            filter1.lemma_same_view(filter2);
        }
        LinkwitzRileyBand { filter1, filter2, process: lw_coeffs.coeffs.process }
    }

    /// Runs the first-order stage of the first band, then that of the second.
    pub fn process_iir1_only(&mut self, input_sample: T) -> (y: T)
        ensures
            final(self).process == old(self).process,
            final(self).filter1@ == old(self).filter1@.spec_after_iir1_only(input_sample),
            final(self).filter2@ == old(self).filter2@.spec_after_iir1_only(
                old(self).filter1@.spec_output_iir1_only(input_sample),
            ),
            y == old(self).filter2@.spec_output_iir1_only(
                old(self).filter1@.spec_output_iir1_only(input_sample),
            ),
    {
        let x = self.filter1.process_iir1_only(input_sample);
        self.filter2.process_iir1_only(x)
    }

    /// Runs stage 0 of the first band, then stage 0 of the second.
    pub fn process_iir2_only(&mut self, input_sample: T) -> (y: T)
        ensures
            final(self).process == old(self).process,
            final(self).filter1@ == old(self).filter1@.spec_after_iir2_only(input_sample),
            final(self).filter2@ == old(self).filter2@.spec_after_iir2_only(
                old(self).filter1@.spec_output_iir2_only(input_sample),
            ),
            y == old(self).filter2@.spec_output_iir2_only(
                old(self).filter1@.spec_output_iir2_only(input_sample),
            ),
    {
        let x = self.filter1.process_iir2_only(input_sample);
        self.filter2.process_iir2_only(x)
    }

    /// Runs the cascade of the first band, then that of the second.
    pub fn process_even_order_cascade(&mut self, input_sample: T) -> (y: T)
        ensures
            final(self).process == old(self).process,
            final(self).filter1@ == old(self).filter1@.spec_after_even_order_cascade(input_sample),
            final(self).filter2@ == old(self).filter2@.spec_after_even_order_cascade(
                old(self).filter1@.spec_output_even_order_cascade(input_sample),
            ),
            y == old(self).filter2@.spec_output_even_order_cascade(
                old(self).filter1@.spec_output_even_order_cascade(input_sample),
            ),
    {
        let x = self.filter1.process_even_order_cascade(input_sample);
        self.filter2.process_even_order_cascade(x)
    }

    /// Runs the first-order stage and the cascade of the first band, then
    /// those of the second.
    pub fn process_odd_order_cascade(&mut self, input_sample: T) -> (y: T)
        ensures
            final(self).process == old(self).process,
            final(self).filter1@ == old(self).filter1@.spec_after_odd_order_cascade(input_sample),
            final(self).filter2@ == old(self).filter2@.spec_after_odd_order_cascade(
                old(self).filter1@.spec_output_odd_order_cascade(input_sample),
            ),
            y == old(self).filter2@.spec_output_odd_order_cascade(
                old(self).filter1@.spec_output_odd_order_cascade(input_sample),
            ),
    {
        let x = self.filter1.process_odd_order_cascade(input_sample);
        self.filter2.process_odd_order_cascade(x)
    }

    /// Filters one sample with the routine that `get_process` names: the
    /// first band runs that routine on the sample, the second runs it on what
    /// the first put out.
    pub fn process(&mut self, input_sample: T) -> (y: T)
        ensures
            final(self).process == old(self).process,
            final(self).filter1@ == old(self).filter1@.spec_after_by(
                old(self).process,
                input_sample,
            ),
            final(self).filter2@ == old(self).filter2@.spec_after_by(
                old(self).process,
                old(self).filter1@.spec_output_by(old(self).process, input_sample),
            ),
            y == old(self).filter2@.spec_output_by(
                old(self).process,
                old(self).filter1@.spec_output_by(old(self).process, input_sample),
            ),
    {
        match self.process {
            ProcessType::ProcessIIR1Only => self.process_iir1_only(input_sample),
            ProcessType::ProcessIIR2Only => self.process_iir2_only(input_sample),
            ProcessType::ProcessEvenOrderCascade => self.process_even_order_cascade(input_sample),
            ProcessType::ProcessOddOrderCascade => self.process_odd_order_cascade(input_sample),
        }
    }

    /// The routine in use.
    pub fn get_process(&self) -> (r: ProcessType)
        ensures
            r == self.process,
    {
        self.process
    }

    /// Gives both bands the coefficients of `lw_coeffs`, as
    /// `FilterBand::update` does, and takes over the routine. Every memory
    /// stays as it is.
    pub fn update(&mut self, lw_coeffs: &LinkwitzRileyCoefficients<T>)
        ensures
            final(self).filter1@ == old(self).filter1@.spec_update(lw_coeffs.coeffs@),
            final(self).filter2@ == old(self).filter2@.spec_update(lw_coeffs.coeffs@),
            final(self).process == lw_coeffs.coeffs.process,
    {
        self.filter1.update(&lw_coeffs.coeffs);
        self.filter2.update(&lw_coeffs.coeffs);
        self.process = lw_coeffs.coeffs.process;
    }
}

} // verus!
