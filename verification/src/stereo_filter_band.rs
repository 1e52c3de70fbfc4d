use vstd::prelude::*;

use crate::complex::Complex;
use crate::filter_band::{BandModel, BandParams, BandType, FilterBand};
use crate::units::{ZSample, FP};

verus! {

/// A band for a stereo signal: one band per channel. The two run with the
/// same coefficients, which are computed once, and keep their own memories.
#[derive(Debug)]
pub struct StereoFilterBand<T: FP> {
    left: FilterBand<T>,
    right: FilterBand<T>,
}

impl<T: FP> Copy for StereoFilterBand<T> {

}

impl<T: FP> Clone for StereoFilterBand<T> {
    fn clone(&self) -> (r: Self)
        ensures
            r == *self,
    {
        *self
    }
}

/// The stereo law. Two channels that hold the same memories, as they do when
/// fresh and after any run of equal inputs, are the same band once the left
/// one has been set from parameters and the right one has mimicked it; fed
/// the same sample they put out the same sample and are the same band again.
pub proof fn lemma_channels_agree<T: FP>(
    left: BandModel<T>,
    right: BandModel<T>,
    params: BandParams<T>,
    x: T,
)
    requires
        left.wf(),
        right.wf(),
        left.spec_same_memory(right),
    ensures
        right.spec_mimic(left.spec_set_params(params)) == left.spec_set_params(params),
        right.spec_mimic(left.spec_set_params(params)).spec_output(x) == left.spec_set_params(
            params,
        ).spec_output(x),
        right.spec_mimic(left.spec_set_params(params)).spec_after(x) == left.spec_set_params(
            params,
        ).spec_after(x),
{
    let set = left.spec_set_params(params);
    left.lemma_set_params_keeps_memory(params);
    right.lemma_mimic_same_memory(set);
}

impl<T: FP> StereoFilterBand<T> {
    /// The band of the left channel.
    pub closed spec fn left(self) -> BandModel<T> {
        self.left@
    }

    /// The band of the right channel.
    pub closed spec fn right(self) -> BandModel<T> {
        self.right@
    }

    /// Two bands at rest that leave the signal as it is.
    pub fn new(sample_rate: T) -> (r: Self)
        ensures
            r.left() == r.right(),
            r.left() == (BandModel {
                params: Some(BandParams::spec_unity(sample_rate)),
                ..BandModel::spec_from(BandParams::spec_unity(sample_rate).spec_design())
            }),
            r.left().wf(),
    {
        StereoFilterBand { left: FilterBand::new(sample_rate), right: FilterBand::new(sample_rate) }
    }

    /// Sets both channels from parameters. The left band is set as
    /// `FilterBand::set_params` sets it; the right band then takes over what
    /// the left one runs with. Every memory stays as it is.
    pub fn update(
        &mut self,
        kind: BandType,
        in_freq: T,
        in_gain: T,
        in_bw_value: T,
        slope: T,
        sample_rate: T,
    )
        ensures
            final(self).left() == old(self).left().spec_set_params(
                BandParams {
                    kind,
                    cutoff_hz: in_freq,
                    gain_db: in_gain,
                    bandwidth_oct: in_bw_value,
                    slope,
                    sample_rate_hz: sample_rate,
                },
            ),
            final(self).right() == old(self).right().spec_mimic(final(self).left()),
            final(self).left().wf(),
            final(self).right().wf(),
    {
        self.left.set_params(kind, in_freq, in_gain, in_bw_value, slope, sample_rate);
        self.right.mimic_band(&self.left);
    }

    /// Filters one sample per channel and returns the left output, then the
    /// right one.
    pub fn process(&mut self, l: T, r: T) -> (out: [T; 2])
        ensures
            final(self).left() == old(self).left().spec_after(l),
            final(self).right() == old(self).right().spec_after(r),
            out@[0] == old(self).left().spec_output(l),
            out@[1] == old(self).right().spec_output(r),
            final(self).left().wf(),
            final(self).right().wf(),
    {
        let yl = self.left.process(l);
        let yr = self.right.process(r);
        [yl, yr]
    }

    /// The complex response of the band at a unit-circle point. Both channels
    /// run with the same coefficients; the left ones are read.
    pub fn get_bode_sample(&self, z: ZSample<T>) -> (y: Complex<T>)
        ensures
            y == self.left().spec_design().spec_bode_sample(z),
    {
        self.left.get_bode_sample(z)
    }
}

} // verus!
