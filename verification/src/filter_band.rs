use vstd::prelude::*;

use crate::complex::Complex;
use crate::first_order_iir::{IIR1Coefficients, IIR1};
use crate::second_order_iir::{IIR2Coefficients, IIR2};
use crate::units::{butterworth_cascade_q, spec_butterworth_cascade_q, Units, ZSample, FP};
use crate::MAX_POLE_COUNT;

verus! {

/// The routine that a band runs for each sample.
#[derive(Clone, Copy, Debug, PartialEq, Eq, Structural)]
pub enum ProcessType {
    /// The first-order stage alone.
    ProcessIIR1Only,
    /// The first second-order stage alone.
    ProcessIIR2Only,
    /// The active second-order stages in series.
    ProcessEvenOrderCascade,
    /// The first-order stage, then the active second-order stages in series.
    ProcessOddOrderCascade,
}

/// The shape of a band's response.
#[derive(Clone, Copy, Debug, PartialEq, Eq, Structural)]
pub enum BandType {
    Bell,
    LowPass,
    HighPass,
    LowShelf,
    HighShelf,
    Notch,
    BandPass,
    AllPass,
}

/// Whether bands of this kind grow with their order. Bell, notch and band-pass
/// are a single second-order stage whatever order is asked for.
pub open spec fn spec_is_cascaded(kind: BandType) -> bool {
    match kind {
        BandType::LowPass
        | BandType::HighPass
        | BandType::AllPass
        | BandType::LowShelf
        | BandType::HighShelf => true,
        BandType::Bell | BandType::Notch | BandType::BandPass => false,
    }
}

/// The order that a slope asks for: its whole part, held at the capacity of
/// the cascade.
pub open spec fn spec_order<T: FP>(slope: T) -> usize {
    if slope.spec_to_usize() <= MAX_POLE_COUNT {
        slope.spec_to_usize()
    } else {
        MAX_POLE_COUNT
    }
}

/// The first-order stage of a band of this kind; the zero coefficients for a
/// kind that has none.
pub open spec fn spec_first_order<T: FP>(
    kind: BandType,
    cutoff_hz: T,
    gain_db: T,
    sample_rate_hz: T,
) -> IIR1Coefficients<T> {
    match kind {
        BandType::LowPass => IIR1Coefficients::spec_lowpass(cutoff_hz, sample_rate_hz),
        BandType::HighPass => IIR1Coefficients::spec_highpass(cutoff_hz, sample_rate_hz),
        BandType::AllPass => IIR1Coefficients::spec_allpass(cutoff_hz, sample_rate_hz),
        BandType::LowShelf => IIR1Coefficients::spec_lowshelf(cutoff_hz, gain_db, sample_rate_hz),
        BandType::HighShelf => IIR1Coefficients::spec_highshelf(
            cutoff_hz,
            gain_db,
            sample_rate_hz,
        ),
        BandType::Bell | BandType::Notch | BandType::BandPass => IIR1Coefficients::spec_empty(),
    }
}

/// A second-order stage of a band of this kind.
pub open spec fn spec_second_order<T: FP>(
    kind: BandType,
    cutoff_hz: T,
    gain_db: T,
    q_value: T,
    sample_rate_hz: T,
) -> IIR2Coefficients<T> {
    match kind {
        BandType::LowPass => IIR2Coefficients::spec_lowpass(cutoff_hz, q_value, sample_rate_hz),
        BandType::HighPass => IIR2Coefficients::spec_highpass(cutoff_hz, q_value, sample_rate_hz),
        BandType::AllPass => IIR2Coefficients::spec_allpass(cutoff_hz, q_value, sample_rate_hz),
        BandType::LowShelf => IIR2Coefficients::spec_lowshelf(
            cutoff_hz,
            gain_db,
            q_value,
            sample_rate_hz,
        ),
        BandType::HighShelf => IIR2Coefficients::spec_highshelf(
            cutoff_hz,
            gain_db,
            q_value,
            sample_rate_hz,
        ),
        BandType::Bell => IIR2Coefficients::spec_bell(cutoff_hz, gain_db, q_value, sample_rate_hz),
        BandType::Notch => IIR2Coefficients::spec_notch(cutoff_hz, q_value, sample_rate_hz),
        BandType::BandPass => IIR2Coefficients::spec_bandpass(cutoff_hz, q_value, sample_rate_hz),
    }
}

/// The coefficients of a whole band, as contracts see them: the cascade is a
/// sequence of `MAX_POLE_COUNT` coefficient sets.
#[verifier::ext_equal]
pub struct BandDesign<T: FP> {
    pub iir1: IIR1Coefficients<T>,
    pub iir2: Seq<IIR2Coefficients<T>>,
    pub process: ProcessType,
    pub iir2_cascade_count: usize,
    pub iir1_enabled: bool,
}

impl<T: FP> BandDesign<T> {
    /// A band of one second-order stage: stage 0 holds `stage`, the routine
    /// runs stage 0 alone, and no stage counts as part of a cascade.
    pub open spec fn spec_single(stage: IIR2Coefficients<T>) -> Self {
        BandDesign {
            iir1: IIR1Coefficients::spec_empty(),
            iir2: Seq::new(
                MAX_POLE_COUNT as nat,
                |i: int|
                    if i == 0 {
                        stage
                    } else {
                        IIR2Coefficients::spec_empty()
                    },
            ),
            process: ProcessType::ProcessIIR2Only,
            iir2_cascade_count: 0,
            iir1_enabled: false,
        }
    }

    /// The Butterworth cascade of a band whose order grows with its slope.
    ///
    /// With `order` the whole part of the slope (at most `MAX_POLE_COUNT`):
    /// an odd order has a first-order stage, built with the gain
    /// `gain_db / order`; order 1 is that stage alone. The other poles come in
    /// pairs: `(order - order % 2) / 2` second-order stages, stage `i` with
    /// the gain `2 * gain_db / order` and the quality
    /// `butterworth_cascade_q(order, i + order % 2) * q / sqrt 2`, where `q`
    /// is the quality that the bandwidth stands for.
    pub open spec fn spec_cascade(
        kind: BandType,
        cutoff_hz: T,
        gain_db: T,
        bandwidth_oct: T,
        slope: T,
        sample_rate_hz: T,
    ) -> Self {
        let order = spec_order(slope);
        let odd = (order % 2) as usize;
        let partial_gain = gain_db.spec_div(T::spec_from_usize(order));
        let stage_gain = partial_gain.spec_mul(T::spec_from_usize(2));
        let q_offset = bandwidth_oct.spec_bandwidth_to_q().spec_mul(T::spec_frac_1_sqrt_2());
        let count = ((order - odd) / 2) as usize;
        BandDesign {
            iir1: if odd == 1 {
                spec_first_order(kind, cutoff_hz, partial_gain, sample_rate_hz)
            } else {
                IIR1Coefficients::spec_empty()
            },
            iir2: Seq::new(
                MAX_POLE_COUNT as nat,
                |i: int|
                    if 0 <= i < count {
                        spec_second_order(
                            kind,
                            cutoff_hz,
                            stage_gain,
                            spec_butterworth_cascade_q::<T>(order, (i + odd) as usize).spec_mul(
                                q_offset,
                            ),
                            sample_rate_hz,
                        )
                    } else {
                        IIR2Coefficients::spec_empty()
                    },
            ),
            process: if odd == 1 {
                if order <= 1 {
                    ProcessType::ProcessIIR1Only
                } else {
                    ProcessType::ProcessOddOrderCascade
                }
            } else {
                ProcessType::ProcessEvenOrderCascade
            },
            iir2_cascade_count: count,
            iir1_enabled: odd == 1,
        }
    }

    /// The band that the parameters ask for.
    pub open spec fn spec_design(
        kind: BandType,
        cutoff_hz: T,
        gain_db: T,
        bandwidth_oct: T,
        slope: T,
        sample_rate_hz: T,
    ) -> Self {
        if spec_is_cascaded(kind) {
            Self::spec_cascade(kind, cutoff_hz, gain_db, bandwidth_oct, slope, sample_rate_hz)
        } else {
            Self::spec_single(
                spec_second_order(
                    kind,
                    cutoff_hz,
                    gain_db,
                    bandwidth_oct.spec_bandwidth_to_q(),
                    sample_rate_hz,
                ),
            )
        }
    }

    /// The same design in another sample type: every coefficient set rounded
    /// as `IIR1Coefficients::spec_cast` and `IIR2Coefficients::spec_cast` say.
    pub open spec fn spec_cast<B: FP>(self) -> BandDesign<B> {
        BandDesign {
            iir1: self.iir1.spec_cast::<B>(),
            iir2: Seq::new(MAX_POLE_COUNT as nat, |i: int| self.iir2[i].spec_cast::<B>()),
            process: self.process,
            iir2_cascade_count: self.iir2_cascade_count,
            iir1_enabled: self.iir1_enabled,
        }
    }

    /// How many second-order stages take part in the response: one where the
    /// routine runs stage 0 alone, none where it runs the first-order stage
    /// alone, else the cascade count, held at the capacity.
    pub open spec fn spec_active_stages(self) -> nat {
        match self.process {
            ProcessType::ProcessIIR1Only => 0,
            ProcessType::ProcessIIR2Only => 1,
            _ => if self.iir2_cascade_count <= MAX_POLE_COUNT {
                self.iir2_cascade_count as nat
            } else {
                MAX_POLE_COUNT as nat
            },
        }
    }

    /// `start` times the responses of the stages `from..to`, multiplied on in
    /// that order.
    pub open spec fn spec_response_product(
        self,
        start: Complex<T>,
        from: nat,
        to: nat,
        z: ZSample<T>,
    ) -> Complex<T>
        decreases to,
    {
        if to <= from {
            start
        } else {
            self.spec_response_product(start, from, (to - 1) as nat, z).spec_mul(
                self.iir2[to - 1].spec_bode_sample(z),
            )
        }
    }

    /// The band's transfer function at a unit-circle point: the product of
    /// the responses of the stages that take part, and of no others. With a
    /// first-order stage the product starts from its response; without one it
    /// starts from stage 0; a band with no stage at all leaves the signal as
    /// it is.
    pub open spec fn spec_bode_sample(self, z: ZSample<T>) -> Complex<T> {
        let n = self.spec_active_stages();
        if self.iir1_enabled {
            self.spec_response_product(self.iir1.spec_bode_sample(z.pow1), 0, n, z)
        } else if n == 0 {
            Complex::spec_one()
        } else {
            self.spec_response_product(self.iir2[0].spec_bode_sample(z), 1, n, z)
        }
    }
}

/// The coefficients of a whole band: one first-order stage, a cascade of
/// second-order stages, and the routine that runs them.
#[derive(Debug)]
pub struct FilterBandCoefficients<T: FP> {
    pub iir1: IIR1Coefficients<T>,
    pub iir2: [IIR2Coefficients<T>; MAX_POLE_COUNT],
    pub process: ProcessType,
    pub iir2_cascade_count: usize,
    pub iir1_enabled: bool,
}

impl<T: FP> Copy for FilterBandCoefficients<T> {

}

impl<T: FP> Clone for FilterBandCoefficients<T> {
    fn clone(&self) -> (r: Self)
        ensures
            r == *self,
    {
        *self
    }
}

impl<T: FP> View for FilterBandCoefficients<T> {
    type V = BandDesign<T>;

    open spec fn view(&self) -> BandDesign<T> {
        BandDesign {
            iir1: self.iir1,
            iir2: self.iir2@,
            process: self.process,
            iir2_cascade_count: self.iir2_cascade_count,
            iir1_enabled: self.iir1_enabled,
        }
    }
}

/// The first-order stage of a band of this kind; the zero coefficients for a
/// kind that has none.
pub fn first_order<T: FP>(kind: BandType, cutoff_hz: T, gain_db: T, sample_rate_hz: T) -> (r:
    IIR1Coefficients<T>)
    ensures
        r == spec_first_order(kind, cutoff_hz, gain_db, sample_rate_hz),
{
    match kind {
        BandType::LowPass => IIR1Coefficients::lowpass(cutoff_hz, gain_db, sample_rate_hz),
        BandType::HighPass => IIR1Coefficients::highpass(cutoff_hz, gain_db, sample_rate_hz),
        BandType::AllPass => IIR1Coefficients::allpass(cutoff_hz, gain_db, sample_rate_hz),
        BandType::LowShelf => IIR1Coefficients::lowshelf(cutoff_hz, gain_db, sample_rate_hz),
        BandType::HighShelf => IIR1Coefficients::highshelf(cutoff_hz, gain_db, sample_rate_hz),
        BandType::Bell | BandType::Notch | BandType::BandPass => IIR1Coefficients::empty(),
    }
}

/// A second-order stage of a band of this kind.
pub fn second_order<T: FP>(
    kind: BandType,
    cutoff_hz: T,
    gain_db: T,
    q_value: T,
    sample_rate_hz: T,
) -> (r: IIR2Coefficients<T>)
    ensures
        r == spec_second_order(kind, cutoff_hz, gain_db, q_value, sample_rate_hz),
{
    match kind {
        BandType::LowPass => IIR2Coefficients::lowpass(cutoff_hz, gain_db, q_value, sample_rate_hz),
        BandType::HighPass => IIR2Coefficients::highpass(
            cutoff_hz,
            gain_db,
            q_value,
            sample_rate_hz,
        ),
        BandType::AllPass => IIR2Coefficients::allpass(cutoff_hz, gain_db, q_value, sample_rate_hz),
        BandType::LowShelf => IIR2Coefficients::lowshelf(
            cutoff_hz,
            gain_db,
            q_value,
            sample_rate_hz,
        ),
        BandType::HighShelf => IIR2Coefficients::highshelf(
            cutoff_hz,
            gain_db,
            q_value,
            sample_rate_hz,
        ),
        BandType::Bell => IIR2Coefficients::bell(cutoff_hz, gain_db, q_value, sample_rate_hz),
        BandType::Notch => IIR2Coefficients::notch(cutoff_hz, gain_db, q_value, sample_rate_hz),
        BandType::BandPass => IIR2Coefficients::bandpass(
            cutoff_hz,
            gain_db,
            q_value,
            sample_rate_hz,
        ),
    }
}

/// The order that a slope asks for: its whole part, held at the capacity of
/// the cascade.
pub fn order_of<T: FP>(slope: T) -> (order: usize)
    ensures
        order == spec_order(slope),
        order <= MAX_POLE_COUNT,
{
    let whole: usize = slope.to_usize();
    if whole <= MAX_POLE_COUNT {
        whole
    } else {
        MAX_POLE_COUNT
    }
}

impl<T: FP> FilterBandCoefficients<T> {
    /// Whether the cascade count fits the cascade.
    pub open spec fn wf(self) -> bool {
        self.iir2_cascade_count <= MAX_POLE_COUNT
    }

    /// The band's complex response at a unit-circle point. Its norm is the
    /// amplitude, its argument the phase.
    pub fn get_bode_sample(&self, z: ZSample<T>) -> (y: Complex<T>)
        ensures
            y == self@.spec_bode_sample(z),
    {
        let n: usize = match self.process {
            ProcessType::ProcessIIR1Only => 0,
            ProcessType::ProcessIIR2Only => 1,
            _ => if self.iir2_cascade_count <= MAX_POLE_COUNT {
                self.iir2_cascade_count
            } else {
                MAX_POLE_COUNT
            },
        };
        let mut i: usize = 0;
        let mut y = Complex::one();
        if self.iir1_enabled {
            y = self.iir1.get_bode_sample(z.pow1);
        } else if n == 0 {
            return y;
        } else {
            y = self.iir2[0].get_bode_sample(z);
            i = 1;
        }
        let ghost first = i as nat;
        let ghost start = y;
        while i < n
            invariant
                first <= i <= n <= MAX_POLE_COUNT,
                y == self@.spec_response_product(start, first, i as nat, z),
            decreases n - i,
        {
            y = y.mul(self.iir2[i].get_bode_sample(z));
            i = i + 1;
        }
        y
    }

    /// A low-pass of the given order.
    pub fn lowpass(cutoff_hz: T, bandwidth_oct: T, order: T, sample_rate_hz: T) -> (r:
        FilterBandCoefficients<T>)
        ensures
            r.wf(),
            r@ == BandDesign::spec_design(
                BandType::LowPass,
                cutoff_hz,
                T::spec_from_usize(0),
                bandwidth_oct,
                order,
                sample_rate_hz,
            ),
    {
        Self::filter_type_1(
            cutoff_hz,
            bandwidth_oct,
            order,
            T::from_usize(0),
            sample_rate_hz,
            BandType::LowPass,
        )
    }

    /// A high-pass of the given order.
    pub fn highpass(cutoff_hz: T, bandwidth_oct: T, order: T, sample_rate_hz: T) -> (r:
        FilterBandCoefficients<T>)
        ensures
            r.wf(),
            r@ == BandDesign::spec_design(
                BandType::HighPass,
                cutoff_hz,
                T::spec_from_usize(0),
                bandwidth_oct,
                order,
                sample_rate_hz,
            ),
    {
        Self::filter_type_1(
            cutoff_hz,
            bandwidth_oct,
            order,
            T::from_usize(0),
            sample_rate_hz,
            BandType::HighPass,
        )
    }

    /// An all-pass of the given order.
    pub fn allpass(cutoff_hz: T, bandwidth_oct: T, order: T, sample_rate_hz: T) -> (r:
        FilterBandCoefficients<T>)
        ensures
            r.wf(),
            r@ == BandDesign::spec_design(
                BandType::AllPass,
                cutoff_hz,
                T::spec_from_usize(0),
                bandwidth_oct,
                order,
                sample_rate_hz,
            ),
    {
        Self::filter_type_1(
            cutoff_hz,
            bandwidth_oct,
            order,
            T::from_usize(0),
            sample_rate_hz,
            BandType::AllPass,
        )
    }

    /// A low shelf of the given order. The stages share the gain, so that the
    /// shelf as a whole has `gain_db`.
    pub fn lowshelf(
        cutoff_hz: T,
        gain_db: T,
        bandwidth_oct: T,
        order: T,
        sample_rate_hz: T,
    ) -> (r: FilterBandCoefficients<T>)
        ensures
            r.wf(),
            r@ == BandDesign::spec_design(
                BandType::LowShelf,
                cutoff_hz,
                gain_db,
                bandwidth_oct,
                order,
                sample_rate_hz,
            ),
    {
        Self::filter_type_1(
            cutoff_hz,
            bandwidth_oct,
            order,
            gain_db,
            sample_rate_hz,
            BandType::LowShelf,
        )
    }

    /// A high shelf of the given order. The stages share the gain, so that
    /// the shelf as a whole has `gain_db`.
    pub fn highshelf(
        cutoff_hz: T,
        gain_db: T,
        bandwidth_oct: T,
        order: T,
        sample_rate_hz: T,
    ) -> (r: FilterBandCoefficients<T>)
        ensures
            r.wf(),
            r@ == BandDesign::spec_design(
                BandType::HighShelf,
                cutoff_hz,
                gain_db,
                bandwidth_oct,
                order,
                sample_rate_hz,
            ),
    {
        Self::filter_type_1(
            cutoff_hz,
            bandwidth_oct,
            order,
            gain_db,
            sample_rate_hz,
            BandType::HighShelf,
        )
    }

    /// A band of one second-order stage.
    fn single(stage: IIR2Coefficients<T>) -> (r: FilterBandCoefficients<T>)
        ensures
            r.wf(),
            r@ == BandDesign::spec_single(stage),
    {
        let mut iir2 = [IIR2Coefficients::empty();MAX_POLE_COUNT];
        iir2[0] = stage;
        FilterBandCoefficients {
            iir1: IIR1Coefficients::empty(),
            iir2,
            process: ProcessType::ProcessIIR2Only,
            iir2_cascade_count: 0,
            iir1_enabled: false,
        }
    }

    /// The band of the given kind that the parameters ask for.
    ///
    /// Low-pass, high-pass, all-pass and the shelves are Butterworth cascades
    /// of the order that `order` holds in its whole part, at most
    /// `MAX_POLE_COUNT`. The other kinds are one second-order stage whatever
    /// the order.
    pub fn filter_type_1(
        cutoff_hz: T,
        bandwidth_oct: T,
        order: T,
        gain_db: T,
        sample_rate_hz: T,
        kind: BandType,
    ) -> (r: FilterBandCoefficients<T>)
        ensures
            r.wf(),
            r@ == BandDesign::spec_design(
                kind,
                cutoff_hz,
                gain_db,
                bandwidth_oct,
                order,
                sample_rate_hz,
            ),
    {
        let slope = order;
        match kind {
            BandType::Bell | BandType::Notch | BandType::BandPass => {
                return Self::single(
                    second_order(
                        kind,
                        cutoff_hz,
                        gain_db,
                        bandwidth_oct.bandwidth_to_q(cutoff_hz, sample_rate_hz),
                        sample_rate_hz,
                    ),
                );
            },
            _ => {},
        }
        let order: usize = order_of(slope);
        let odd: usize = order % 2;
        let iir1_enabled = odd == 1;
        let partial_gain = gain_db.div(T::from_usize(order));
        let mut iir2 = [IIR2Coefficients::empty();MAX_POLE_COUNT];
        let process;
        if iir1_enabled {
            if order <= 1 {
                let r = FilterBandCoefficients {
                    iir1: first_order(kind, cutoff_hz, partial_gain, sample_rate_hz),
                    iir2,
                    process: ProcessType::ProcessIIR1Only,
                    iir2_cascade_count: 0,
                    iir1_enabled,
                };
                assert(r@ =~= BandDesign::spec_cascade(
                    kind,
                    cutoff_hz,
                    gain_db,
                    bandwidth_oct,
                    slope,
                    sample_rate_hz,
                ));
                return r;
            }
            process = ProcessType::ProcessOddOrderCascade;
        } else {
            process = ProcessType::ProcessEvenOrderCascade;
        }
        let iir1 = if iir1_enabled {
            first_order(kind, cutoff_hz, partial_gain, sample_rate_hz)
        } else {
            IIR1Coefficients::empty()
        };
        let stage_gain = partial_gain.mul(T::from_usize(2));
        let q_value = bandwidth_oct.bandwidth_to_q(cutoff_hz, sample_rate_hz);
        let q_offset = q_value.mul(T::frac_1_sqrt_2());
        let iir2_cascade_count: usize = (order - odd) / 2;
        let mut i: usize = 0;
        while i < iir2_cascade_count
            invariant
                i <= iir2_cascade_count,
                iir2_cascade_count == (order - odd) / 2,
                order <= MAX_POLE_COUNT,
                odd == order % 2,
                forall|j: int|
                    0 <= j < i ==> iir2@[j] == spec_second_order(
                        kind,
                        cutoff_hz,
                        stage_gain,
                        spec_butterworth_cascade_q::<T>(order, (j + odd) as usize).spec_mul(
                            q_offset,
                        ),
                        sample_rate_hz,
                    ),
                forall|j: int|
                    i <= j < MAX_POLE_COUNT ==> iir2@[j] == IIR2Coefficients::<T>::spec_empty(),
            decreases iir2_cascade_count - i,
        {
            let q_value = butterworth_cascade_q::<T>(order, i + odd).mul(q_offset);
            iir2[i] = second_order(kind, cutoff_hz, stage_gain, q_value, sample_rate_hz);
            i = i + 1;
        }
        let r = FilterBandCoefficients { iir1, iir2, process, iir2_cascade_count, iir1_enabled };
        assert(r@ =~= BandDesign::spec_cascade(
            kind,
            cutoff_hz,
            gain_db,
            bandwidth_oct,
            slope,
            sample_rate_hz,
        ));
        r
    }

    /// A notch around `cutoff_hz`, `bandwidth_oct` octaves wide. The gain is
    /// not used.
    pub fn notch(cutoff_hz: T, _gain_db: T, bandwidth_oct: T, sample_rate_hz: T) -> (r:
        FilterBandCoefficients<T>)
        ensures
            r.wf(),
            r@ == BandDesign::spec_single(
                IIR2Coefficients::spec_notch(
                    cutoff_hz,
                    bandwidth_oct.spec_bandwidth_to_q(),
                    sample_rate_hz,
                ),
            ),
    {
        Self::single(
            IIR2Coefficients::notch(
                cutoff_hz,
                T::from_usize(0),
                bandwidth_oct.bandwidth_to_q(cutoff_hz, sample_rate_hz),
                sample_rate_hz,
            ),
        )
    }

    /// A band-pass around `cutoff_hz`, `bandwidth_oct` octaves wide. The gain
    /// is not used.
    pub fn bandpass(cutoff_hz: T, _gain_db: T, bandwidth_oct: T, sample_rate_hz: T) -> (r:
        FilterBandCoefficients<T>)
        ensures
            r.wf(),
            r@ == BandDesign::spec_single(
                IIR2Coefficients::spec_bandpass(
                    cutoff_hz,
                    bandwidth_oct.spec_bandwidth_to_q(),
                    sample_rate_hz,
                ),
            ),
    {
        Self::single(
            IIR2Coefficients::bandpass(
                cutoff_hz,
                T::from_usize(0),
                bandwidth_oct.bandwidth_to_q(cutoff_hz, sample_rate_hz),
                sample_rate_hz,
            ),
        )
    }

    /// A bell of `gain_db` decibels around `cutoff_hz`, `bandwidth_oct`
    /// octaves wide.
    pub fn bell(cutoff_hz: T, gain_db: T, bandwidth_oct: T, sample_rate_hz: T) -> (r:
        FilterBandCoefficients<T>)
        ensures
            r.wf(),
            r@ == BandDesign::spec_single(
                IIR2Coefficients::spec_bell(
                    cutoff_hz,
                    gain_db,
                    bandwidth_oct.spec_bandwidth_to_q(),
                    sample_rate_hz,
                ),
            ),
    {
        Self::single(
            IIR2Coefficients::bell(
                cutoff_hz,
                gain_db,
                bandwidth_oct.bandwidth_to_q(cutoff_hz, sample_rate_hz),
                sample_rate_hz,
            ),
        )
    }
}

/// The parameters that a band was last set from.
#[derive(Debug)]
pub struct BandParams<T: FP> {
    pub kind: BandType,
    pub cutoff_hz: T,
    pub gain_db: T,
    pub bandwidth_oct: T,
    pub slope: T,
    pub sample_rate_hz: T,
}

impl<T: FP> Copy for BandParams<T> {

}

impl<T: FP> Clone for BandParams<T> {
    fn clone(&self) -> (r: Self)
        ensures
            r == *self,
    {
        *self
    }
}

impl<T: FP> BandParams<T> {
    /// The band that these parameters ask for.
    pub open spec fn spec_design(self) -> BandDesign<T> {
        BandDesign::spec_design(
            self.kind,
            self.cutoff_hz,
            self.gain_db,
            self.bandwidth_oct,
            self.slope,
            self.sample_rate_hz,
        )
    }

    /// The parameters of a band fresh from `FilterBand::new`: a bell of no
    /// gain, one octave wide, at 1000 Hz.
    pub open spec fn spec_unity(sample_rate_hz: T) -> Self {
        BandParams {
            kind: BandType::Bell,
            cutoff_hz: T::spec_from_usize(1000),
            gain_db: T::spec_from_usize(0),
            bandwidth_oct: T::spec_from_usize(1),
            slope: T::spec_from_usize(2),
            sample_rate_hz,
        }
    }

    /// Whether the two sets agree in kind and, bit for bit, in every number.
    pub fn same(&self, other: &Self) -> (r: bool)
        ensures
            r == (*self == *other),
    {
        self.kind == other.kind && self.cutoff_hz.same(other.cutoff_hz) && self.gain_db.same(
            other.gain_db,
        ) && self.bandwidth_oct.same(other.bandwidth_oct) && self.slope.same(other.slope)
            && self.sample_rate_hz.same(other.sample_rate_hz)
    }

    /// The band that these parameters ask for.
    pub fn design(&self) -> (r: FilterBandCoefficients<T>)
        ensures
            r.wf(),
            r@ == self.spec_design(),
    {
        FilterBandCoefficients::filter_type_1(
            self.cutoff_hz,
            self.bandwidth_oct,
            self.slope,
            self.gain_db,
            self.sample_rate_hz,
            self.kind,
        )
    }
}

/// A band as contracts see it: its stages with their memories, how many
/// second-order stages form the cascade, the routine in use, and the
/// parameters it was last set from, if it was set from parameters.
#[verifier::ext_equal]
pub struct BandModel<T: FP> {
    pub first_order: IIR1<T>,
    pub stages: Seq<IIR2<T>>,
    pub cascade_count: nat,
    pub mode: ProcessType,
    pub params: Option<BandParams<T>>,
}

/// The cascade count that a band takes over from a design: the design's
/// count, held at the capacity of the cascade.
pub open spec fn spec_held_count(count: usize) -> nat {
    if count <= MAX_POLE_COUNT {
        count as nat
    } else {
        MAX_POLE_COUNT as nat
    }
}

/// The sample that leaves the first `n` stages of a cascade when `x` enters
/// stage 0: each stage filters what the stage before it put out.
pub open spec fn spec_cascade_signal<T: FP>(stages: Seq<IIR2<T>>, n: nat, x: T) -> T
    decreases n,
{
    if n == 0 {
        x
    } else {
        stages[n - 1].spec_output(spec_cascade_signal(stages, (n - 1) as nat, x))
    }
}

/// The stages of a cascade after `x` has run through the first `n` of them;
/// the others are as they were.
pub open spec fn spec_cascade_after<T: FP>(stages: Seq<IIR2<T>>, n: nat, x: T) -> Seq<IIR2<T>> {
    Seq::new(
        stages.len(),
        |i: int|
            if 0 <= i < n {
                stages[i].spec_after(spec_cascade_signal(stages, i as nat, x))
            } else {
                stages[i]
            },
    )
}

impl<T: FP> BandModel<T> {
    /// Whether the band has all its stages and a cascade that fits them.
    pub open spec fn wf(self) -> bool {
        &&& self.stages.len() == MAX_POLE_COUNT
        &&& self.cascade_count <= MAX_POLE_COUNT
    }

    /// A band at rest built from a design. Every second-order stage starts
    /// with the coefficients of the design's stage 0; `spec_update` gives each
    /// stage its own.
    pub open spec fn spec_from(design: BandDesign<T>) -> Self {
        BandModel {
            first_order: IIR1::spec_new(design.iir1),
            stages: Seq::new(MAX_POLE_COUNT as nat, |i: int| IIR2::spec_new(design.iir2[0])),
            cascade_count: spec_held_count(design.iir2_cascade_count),
            mode: design.process,
            params: None,
        }
    }

    /// The band with the coefficients, count and routine of `design`, and
    /// with every memory as it was.
    pub open spec fn spec_update(self, design: BandDesign<T>) -> Self {
        BandModel {
            first_order: self.first_order.spec_with_coefficients(design.iir1),
            stages: Seq::new(
                MAX_POLE_COUNT as nat,
                |i: int| self.stages[i].spec_with_coefficients(design.iir2[i]),
            ),
            cascade_count: spec_held_count(design.iir2_cascade_count),
            mode: design.process,
            params: None,
        }
    }

    /// The band set from `params`: unchanged where it was last set from the
    /// very same parameters, else updated to the design they ask for.
    pub open spec fn spec_set_params(self, params: BandParams<T>) -> Self {
        if self.params == Some(params) {
            self
        } else {
            BandModel { params: Some(params), ..self.spec_update(params.spec_design()) }
        }
    }

    /// The coefficients that the band runs with.
    pub open spec fn spec_design(self) -> BandDesign<T> {
        BandDesign {
            iir1: self.first_order.coefficients(),
            iir2: Seq::new(MAX_POLE_COUNT as nat, |i: int| self.stages[i].coefficients()),
            process: self.mode,
            iir2_cascade_count: self.cascade_count as usize,
            iir1_enabled: self.mode == ProcessType::ProcessIIR1Only || self.mode
                == ProcessType::ProcessOddOrderCascade,
        }
    }

    /// The band with the coefficients, count, routine and parameters of
    /// `other`, and with every memory as it was.
    pub open spec fn spec_mimic(self, other: Self) -> Self {
        BandModel {
            first_order: self.first_order.spec_with_coefficients(other.first_order.coefficients()),
            stages: Seq::new(
                MAX_POLE_COUNT as nat,
                |i: int| self.stages[i].spec_with_coefficients(other.stages[i].coefficients()),
            ),
            cascade_count: other.cascade_count,
            mode: other.mode,
            params: other.params,
        }
    }

    /// The band after the first-order stage alone has filtered `x`.
    pub open spec fn spec_after_iir1_only(self, x: T) -> Self {
        BandModel { first_order: self.first_order.spec_after(x), ..self }
    }

    /// What the first-order stage alone puts out for `x`.
    pub open spec fn spec_output_iir1_only(self, x: T) -> T {
        self.first_order.spec_output(x)
    }

    /// The band after stage 0 alone has filtered `x`.
    pub open spec fn spec_after_iir2_only(self, x: T) -> Self {
        BandModel { stages: spec_cascade_after(self.stages, 1, x), ..self }
    }

    /// What stage 0 alone puts out for `x`.
    pub open spec fn spec_output_iir2_only(self, x: T) -> T {
        spec_cascade_signal(self.stages, 1, x)
    }

    /// The band after `x` has run through the cascade.
    pub open spec fn spec_after_even_order_cascade(self, x: T) -> Self {
        BandModel { stages: spec_cascade_after(self.stages, self.cascade_count, x), ..self }
    }

    /// What the cascade puts out for `x`.
    pub open spec fn spec_output_even_order_cascade(self, x: T) -> T {
        spec_cascade_signal(self.stages, self.cascade_count, x)
    }

    /// The band after `x` has run through the first-order stage and then the
    /// cascade.
    pub open spec fn spec_after_odd_order_cascade(self, x: T) -> Self {
        BandModel {
            first_order: self.first_order.spec_after(x),
            stages: spec_cascade_after(
                self.stages,
                self.cascade_count,
                self.first_order.spec_output(x),
            ),
            ..self
        }
    }

    /// What the first-order stage followed by the cascade puts out for `x`.
    pub open spec fn spec_output_odd_order_cascade(self, x: T) -> T {
        spec_cascade_signal(self.stages, self.cascade_count, self.first_order.spec_output(x))
    }

    /// The band after it has filtered `x` with the given routine.
    pub open spec fn spec_after_by(self, routine: ProcessType, x: T) -> Self {
        match routine {
            ProcessType::ProcessIIR1Only => self.spec_after_iir1_only(x),
            ProcessType::ProcessIIR2Only => self.spec_after_iir2_only(x),
            ProcessType::ProcessEvenOrderCascade => self.spec_after_even_order_cascade(x),
            ProcessType::ProcessOddOrderCascade => self.spec_after_odd_order_cascade(x),
        }
    }

    /// What the band puts out for `x` with the given routine.
    pub open spec fn spec_output_by(self, routine: ProcessType, x: T) -> T {
        match routine {
            ProcessType::ProcessIIR1Only => self.spec_output_iir1_only(x),
            ProcessType::ProcessIIR2Only => self.spec_output_iir2_only(x),
            ProcessType::ProcessEvenOrderCascade => self.spec_output_even_order_cascade(x),
            ProcessType::ProcessOddOrderCascade => self.spec_output_odd_order_cascade(x),
        }
    }

    /// The band after it has filtered `x` with the routine in use.
    pub open spec fn spec_after(self, x: T) -> Self {
        self.spec_after_by(self.mode, x)
    }

    /// What the band puts out for `x` with the routine in use.
    pub open spec fn spec_output(self, x: T) -> T {
        self.spec_output_by(self.mode, x)
    }
}

impl<T: FP> BandModel<T> {
    /// Whether the two bands hold the same memories, stage by stage.
    pub open spec fn spec_same_memory(self, other: Self) -> bool {
        &&& self.first_order.state() == other.first_order.state()
        &&& forall|i: int|
            0 <= i < MAX_POLE_COUNT ==> (#[trigger] self.stages[i]).state1()
                == other.stages[i].state1()
        &&& forall|i: int|
            0 <= i < MAX_POLE_COUNT ==> (#[trigger] self.stages[i]).state2()
                == other.stages[i].state2()
    }

    /// Taking over a design leaves every memory as it was, and the band then
    /// runs with the coefficients and the routine of that design.
    pub proof fn lemma_update_keeps_memory(self, design: BandDesign<T>)
        requires
            self.wf(),
        ensures
            self.spec_update(design).wf(),
            self.spec_update(design).spec_same_memory(self),
            self.spec_update(design).first_order.coefficients() == design.iir1,
            forall|i: int|
                0 <= i < MAX_POLE_COUNT ==> (#[trigger] self.spec_update(
                    design,
                ).stages[i]).coefficients() == design.iir2[i],
            self.spec_update(design).mode == design.process,
    {
        broadcast use {IIR1::lemma_of, IIR2::lemma_of};

    }

    /// Taking over the same design twice is the same as taking it over once.
    pub proof fn lemma_update_twice(self, design: BandDesign<T>)
        requires
            self.wf(),
        ensures
            self.spec_update(design).spec_update(design) == self.spec_update(design),
    {
        broadcast use {IIR1::lemma_of, IIR2::lemma_of};

        assert(self.spec_update(design).spec_update(design) =~= self.spec_update(design));
    }

    /// Setting a band from parameters leaves every memory as it was.
    pub proof fn lemma_set_params_keeps_memory(self, params: BandParams<T>)
        requires
            self.wf(),
        ensures
            self.spec_set_params(params).wf(),
            self.spec_set_params(params).spec_same_memory(self),
    {
        self.lemma_update_keeps_memory(params.spec_design());
    }

    /// Setting a band twice from the same parameters is the same as setting
    /// it once: the second call changes no coefficient, no memory and not
    /// the routine, so the band goes on to put out what it would have put
    /// out without that call.
    pub proof fn lemma_set_params_twice(self, params: BandParams<T>, x: T)
        ensures
            self.spec_set_params(params).spec_set_params(params) == self.spec_set_params(params),
            self.spec_set_params(params).spec_set_params(params).spec_output(x)
                == self.spec_set_params(params).spec_output(x),
            self.spec_set_params(params).spec_set_params(params).spec_after(x)
                == self.spec_set_params(params).spec_after(x),
    {
    }

    /// A band that was set from parameters runs with the design that they ask
    /// for.
    pub proof fn lemma_set_params_design(self, params: BandParams<T>)
        requires
            self.wf(),
            self.params != Some(params),
        ensures
            self.spec_set_params(params).spec_design() == params.spec_design(),
    {
        broadcast use {IIR1::lemma_of, IIR2::lemma_of};

        assert(self.spec_set_params(params).spec_design() =~= params.spec_design());
    }

    /// A band that mimics another runs with that band's coefficients, count,
    /// routine and parameters, and keeps its own memories.
    pub proof fn lemma_mimic_keeps_memory(self, other: Self)
        requires
            self.wf(),
            other.wf(),
        ensures
            self.spec_mimic(other).wf(),
            self.spec_mimic(other).spec_same_memory(self),
            self.spec_mimic(other).spec_design() == other.spec_design(),
            self.spec_mimic(other).params == other.params,
    {
        broadcast use {IIR1::lemma_of, IIR2::lemma_of};

        assert(self.spec_mimic(other).spec_design() =~= other.spec_design());
    }

    /// A band that mimics a band with the same memories becomes that band.
    pub proof fn lemma_mimic_same_memory(self, other: Self)
        requires
            self.wf(),
            other.wf(),
            self.spec_same_memory(other),
        ensures
            self.spec_mimic(other) == other,
    {
        broadcast use {IIR1::lemma_of, IIR2::lemma_of, IIR1::lemma_parts, IIR2::lemma_parts};

        assert(self.spec_mimic(other).stages =~= other.stages) by {
            assert forall|i: int| 0 <= i < MAX_POLE_COUNT implies #[trigger] self.spec_mimic(
                other,
            ).stages[i] == other.stages[i] by {
                assert(self.stages[i].state1() == other.stages[i].state1());
                assert(self.stages[i].state2() == other.stages[i].state2());
            }
        }
        assert(self.spec_mimic(other) =~= other);
    }

    /// Whether the two bands hold the same stages and run the same routine
    /// over as many of them. The parameters that they were set from may
    /// differ.
    pub open spec fn spec_runs_like(self, other: Self) -> bool {
        &&& self.first_order == other.first_order
        &&& self.stages == other.stages
        &&& self.cascade_count == other.cascade_count
        &&& self.mode == other.mode
    }

    /// Bands that run alike put out the same sample for the same input and
    /// run alike afterwards, however each of them was set up. With the
    /// contract of `WideFilterBand::process` this is the parity of lanes: a
    /// lane of a wide band and a band of single samples that start with the
    /// same coefficients and memories stay in step sample for sample.
    pub proof fn lemma_runs_alike(self, other: Self, x: T)
        requires
            self.spec_runs_like(other),
        ensures
            self.spec_output(x) == other.spec_output(x),
            self.spec_after(x).spec_runs_like(other.spec_after(x)),
    {
    }

    /// Filtering a sample changes memories only: the band goes on with the
    /// same coefficients, count, routine and parameters.
    pub proof fn lemma_process_keeps_design(self, x: T)
        requires
            self.wf(),
        ensures
            self.spec_after(x).wf(),
            self.spec_after(x).spec_design() == self.spec_design(),
            self.spec_after(x).params == self.params,
    {
        broadcast use {IIR1::lemma_of, IIR2::lemma_of};

        assert(self.spec_after(x).spec_design() =~= self.spec_design());
    }
}

/// One band of an equaliser: a first-order stage and a cascade of
/// second-order stages with their memories, run by one of four routines.
#[derive(Debug)]
pub struct FilterBand<T: FP> {
    iir1: IIR1<T>,
    iir2: [IIR2<T>; MAX_POLE_COUNT],
    iir2_cascade_count: usize,
    process: ProcessType,
    params: Option<BandParams<T>>,
}

impl<T: FP> Copy for FilterBand<T> {

}

impl<T: FP> Clone for FilterBand<T> {
    fn clone(&self) -> (r: Self)
        ensures
            r == *self,
    {
        *self
    }
}

impl<T: FP> View for FilterBand<T> {
    type V = BandModel<T>;

    closed spec fn view(&self) -> BandModel<T> {
        BandModel {
            first_order: self.iir1,
            stages: self.iir2@,
            cascade_count: self.iir2_cascade_count as nat,
            mode: self.process,
            params: self.params,
        }
    }
}

impl<T: FP> FilterBand<T> {
    #[verifier::type_invariant]
    spec fn inv(self) -> bool {
        self.iir2_cascade_count <= MAX_POLE_COUNT
    }

    /// Two bands that contracts see alike are the same band.
    pub proof fn lemma_same_view(self, other: Self)
        requires
            self@ == other@,
        ensures
            self == other,
    {
        assert(self.iir2@ == other.iir2@);
        assert(self.iir2 =~= other.iir2);
    }

    /// A band at rest with the coefficients of `coeffs`. Every second-order
    /// stage starts with the coefficients of stage 0; `update` gives each
    /// stage its own. A cascade count beyond the capacity is held at the
    /// capacity.
    pub fn from(coeffs: &FilterBandCoefficients<T>) -> (r: FilterBand<T>)
        ensures
            r@ == BandModel::spec_from(coeffs@),
            r@.wf(),
    {
        let iir2_cascade_count: usize = if coeffs.iir2_cascade_count <= MAX_POLE_COUNT {
            coeffs.iir2_cascade_count
        } else {
            MAX_POLE_COUNT
        };
        let r = FilterBand {
            iir1: IIR1::new(coeffs.iir1),
            iir2: [IIR2::new(coeffs.iir2[0]);MAX_POLE_COUNT],
            iir2_cascade_count,
            process: coeffs.process,
            params: None,
        };
        assert(r@ =~= BandModel::spec_from(coeffs@));
        r
    }

    /// A band at rest that leaves the signal as it is: a bell of no gain.
    pub fn new(sample_rate: T) -> (r: FilterBand<T>)
        ensures
            r@ == (BandModel {
                params: Some(BandParams::spec_unity(sample_rate)),
                ..BandModel::spec_from(BandParams::spec_unity(sample_rate).spec_design())
            }),
            r@.wf(),
    {
        let params = BandParams {
            kind: BandType::Bell,
            cutoff_hz: T::from_usize(1000),
            gain_db: T::from_usize(0),
            bandwidth_oct: T::from_usize(1),
            slope: T::from_usize(2),
            sample_rate_hz: sample_rate,
        };
        let coeffs = params.design();
        let mut r = Self::from(&coeffs);
        r.params = Some(params);
        r
    }

    /// Runs the first-order stage alone.
    pub fn process_iir1_only(&mut self, input_sample: T) -> (y: T)
        ensures
            final(self)@ == old(self)@.spec_after_iir1_only(input_sample),
            y == old(self)@.spec_output_iir1_only(input_sample),
            final(self)@.wf(),
    {
        proof {
            use_type_invariant(&*self);
        }
        let mut stage = self.iir1;
        let y = stage.process(input_sample);
        self.iir1 = stage;
        y
    }

    /// Runs stage 0 of the cascade alone.
    pub fn process_iir2_only(&mut self, input_sample: T) -> (y: T)
        ensures
            final(self)@ == old(self)@.spec_after_iir2_only(input_sample),
            y == old(self)@.spec_output_iir2_only(input_sample),
            final(self)@.wf(),
    {
        proof {
            use_type_invariant(&*self);
        }
        let mut stage = self.iir2[0];
        let y = stage.process(input_sample);
        self.iir2[0] = stage;
        assert(spec_cascade_signal(old(self)@.stages, 0, input_sample) == input_sample);
        assert(self@.stages =~= spec_cascade_after(old(self)@.stages, 1, input_sample));
        y
    }

    /// Runs the sample through the cascade, stage 0 first.
    pub fn process_even_order_cascade(&mut self, input_sample: T) -> (y: T)
        ensures
            final(self)@ == old(self)@.spec_after_even_order_cascade(input_sample),
            y == old(self)@.spec_output_even_order_cascade(input_sample),
            final(self)@.wf(),
    {
        self.run_cascade(input_sample)
    }

    /// Runs the sample through the first-order stage and then through the
    /// cascade, stage 0 first.
    pub fn process_odd_order_cascade(&mut self, input_sample: T) -> (y: T)
        ensures
            final(self)@ == old(self)@.spec_after_odd_order_cascade(input_sample),
            y == old(self)@.spec_output_odd_order_cascade(input_sample),
            final(self)@.wf(),
    {
        let x = self.process_iir1_only(input_sample);
        self.run_cascade(x)
    }

    fn run_cascade(&mut self, input_sample: T) -> (y: T)
        ensures
            final(self)@ == (BandModel {
                stages: spec_cascade_after(
                    old(self)@.stages,
                    old(self)@.cascade_count,
                    input_sample,
                ),
                ..old(self)@
            }),
            y == spec_cascade_signal(old(self)@.stages, old(self)@.cascade_count, input_sample),
            final(self)@.wf(),
    {
        proof {
            use_type_invariant(&*self);
        }
        let ghost before = self@;
        let mut x = input_sample;
        let mut i: usize = 0;
        while i < self.iir2_cascade_count
            invariant
                i <= self.iir2_cascade_count <= MAX_POLE_COUNT,
                self@ == (BandModel {
                    stages: spec_cascade_after(before.stages, i as nat, input_sample),
                    ..before
                }),
                before.stages.len() == MAX_POLE_COUNT,
                x == spec_cascade_signal(before.stages, i as nat, input_sample),
            decreases self.iir2_cascade_count - i,
        {
            let mut stage = self.iir2[i];
            x = stage.process(x);
            self.iir2[i] = stage;
            i = i + 1;
            assert(self@.stages =~= spec_cascade_after(before.stages, i as nat, input_sample));
        }
        x
    }

    /// Filters one sample with the routine in use.
    pub fn process(&mut self, input_sample: T) -> (y: T)
        ensures
            final(self)@ == old(self)@.spec_after(input_sample),
            y == old(self)@.spec_output(input_sample),
            final(self)@.wf(),
    {
        match self.process {
            ProcessType::ProcessIIR1Only => self.process_iir1_only(input_sample),
            ProcessType::ProcessIIR2Only => self.process_iir2_only(input_sample),
            ProcessType::ProcessEvenOrderCascade => self.process_even_order_cascade(input_sample),
            ProcessType::ProcessOddOrderCascade => self.process_odd_order_cascade(input_sample),
        }
    }

    /// The routine in use.
    pub fn get_process(&self) -> (r: ProcessType)
        ensures
            r == self@.mode,
    {
        self.process
    }

    /// Takes over the coefficients, the cascade count and the routine of
    /// `coeffs`. Every memory stays as it is, so that the output goes on
    /// without a jump. A cascade count beyond the capacity is held at the
    /// capacity.
    pub fn update(&mut self, coeffs: &FilterBandCoefficients<T>)
        ensures
            final(self)@ == old(self)@.spec_update(coeffs@),
            final(self)@.wf(),
    {
        proof {
            use_type_invariant(&*self);
        }
        let ghost before = self@;
        let mut i: usize = 0;
        while i < MAX_POLE_COUNT
            invariant
                i <= MAX_POLE_COUNT,
                self.iir2_cascade_count <= MAX_POLE_COUNT,
                before.stages.len() == MAX_POLE_COUNT,
                self@ == (BandModel {
                    stages: Seq::new(
                        MAX_POLE_COUNT as nat,
                        |j: int|
                            if j < i {
                                before.stages[j].spec_with_coefficients(coeffs@.iir2[j])
                            } else {
                                before.stages[j]
                            },
                    ),
                    ..before
                }),
            decreases MAX_POLE_COUNT - i,
        {
            let mut stage = self.iir2[i];
            stage.update_coefficients(coeffs.iir2[i]);
            self.iir2[i] = stage;
            i = i + 1;
        }
        let mut stage = self.iir1;
        stage.update_coefficients(coeffs.iir1);
        self.iir1 = stage;
        self.iir2_cascade_count = if coeffs.iir2_cascade_count <= MAX_POLE_COUNT {
            coeffs.iir2_cascade_count
        } else {
            MAX_POLE_COUNT
        };
        self.process = coeffs.process;
        self.params = None;
    }

    /// Sets the band from parameters. Where they are, bit for bit, the
    /// parameters that the band was last set from, nothing is computed and
    /// nothing changes. Otherwise the band takes over the design that they ask
    /// for, as `update` does.
    pub fn set_params(
        &mut self,
        kind: BandType,
        cutoff_hz: T,
        gain_db: T,
        bandwidth_oct: T,
        slope: T,
        sample_rate_hz: T,
    )
        ensures
            final(self)@ == old(self)@.spec_set_params(
                BandParams { kind, cutoff_hz, gain_db, bandwidth_oct, slope, sample_rate_hz },
            ),
            final(self)@.wf(),
    {
        proof {
            use_type_invariant(&*self);
        }
        let params = BandParams { kind, cutoff_hz, gain_db, bandwidth_oct, slope, sample_rate_hz };
        match self.params {
            Some(current) => {
                if current.same(&params) {
                    return ;
                }
            },
            None => {},
        }
        let coeffs = params.design();
        self.update(&coeffs);
        self.params = Some(params);
    }

    /// Takes over the coefficients, the cascade count, the routine and the
    /// parameters of `other`, without computing anything. Every memory stays
    /// as it is.
    pub fn mimic_band(&mut self, other: &FilterBand<T>)
        ensures
            final(self)@ == old(self)@.spec_mimic(other@),
            final(self)@.wf(),
    {
        proof {
            use_type_invariant(&*self);
            use_type_invariant(other);
        }
        let ghost before = self@;
        let mut i: usize = 0;
        while i < MAX_POLE_COUNT
            invariant
                i <= MAX_POLE_COUNT,
                self.iir2_cascade_count <= MAX_POLE_COUNT,
                before.stages.len() == MAX_POLE_COUNT,
                self@ == (BandModel {
                    stages: Seq::new(
                        MAX_POLE_COUNT as nat,
                        |j: int|
                            if j < i {
                                before.stages[j].spec_with_coefficients(
                                    other@.stages[j].coefficients(),
                                )
                            } else {
                                before.stages[j]
                            },
                    ),
                    ..before
                }),
            decreases MAX_POLE_COUNT - i,
        {
            let mut stage = self.iir2[i];
            stage.update_coefficients(other.iir2[i].get_coefficients());
            self.iir2[i] = stage;
            i = i + 1;
        }
        let mut stage = self.iir1;
        stage.update_coefficients(other.iir1.get_coefficients());
        self.iir1 = stage;
        self.iir2_cascade_count = other.iir2_cascade_count;
        self.process = other.process;
        self.params = other.params;
    }

    /// The coefficients that the band runs with.
    pub fn coefficients(&self) -> (r: FilterBandCoefficients<T>)
        ensures
            r.wf(),
            r@ == self@.spec_design(),
    {
        proof {
            use_type_invariant(self);
        }
        let mut iir2 = [IIR2Coefficients::empty();MAX_POLE_COUNT];
        let mut i: usize = 0;
        while i < MAX_POLE_COUNT
            invariant
                i <= MAX_POLE_COUNT,
                forall|j: int| 0 <= j < i ==> iir2@[j] == self.iir2@[j].coefficients(),
            decreases MAX_POLE_COUNT - i,
        {
            iir2[i] = self.iir2[i].get_coefficients();
            i = i + 1;
        }
        let iir1_enabled = match self.process {
            ProcessType::ProcessIIR1Only | ProcessType::ProcessOddOrderCascade => true,
            _ => false,
        };
        let r = FilterBandCoefficients {
            iir1: self.iir1.get_coefficients(),
            iir2,
            process: self.process,
            iir2_cascade_count: self.iir2_cascade_count,
            iir1_enabled,
        };
        assert(r@ =~= self@.spec_design());
        r
    }

    /// The band's complex response at a unit-circle point, from the
    /// coefficients that it runs with. The memories do not enter.
    pub fn get_bode_sample(&self, z: ZSample<T>) -> (y: Complex<T>)
        ensures
            y == self@.spec_design().spec_bode_sample(z),
    {
        self.coefficients().get_bode_sample(z)
    }
}

} // verus!
