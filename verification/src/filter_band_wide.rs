use vstd::prelude::*;

use crate::filter_band::{
    spec_cascade_after,
    spec_cascade_signal,
    BandDesign,
    BandModel,
    FilterBandCoefficients,
    ProcessType,
};
use crate::first_order_iir::IIR1;
use crate::first_order_iir_wide::{WideIIR1, WideIIR1Coefficients};
use crate::second_order_iir::IIR2;
use crate::second_order_iir_wide::{WideIIR2, WideIIR2Coefficients};
use crate::units::FP;
use crate::wide_units::WIDE;
use crate::MAX_POLE_COUNT;

verus! {

/// The coefficients of a whole band that filters one signal per lane.
#[derive(Debug)]
pub struct WideFilterBandCoefficients<T: WIDE> {
    pub iir1: WideIIR1Coefficients<T>,
    pub iir2: [WideIIR2Coefficients<T>; MAX_POLE_COUNT],
    pub process: ProcessType,
    pub iir2_cascade_count: usize,
    pub iir1_enabled: bool,
}

impl<T: WIDE> Copy for WideFilterBandCoefficients<T> {

}

impl<T: WIDE> Clone for WideFilterBandCoefficients<T> {
    fn clone(&self) -> (r: Self)
        ensures
            r == *self,
    {
        *self
    }
}

impl<T: WIDE> WideFilterBandCoefficients<T> {
    /// The design that lane `i` filters with.
    pub open spec fn spec_lane(self, i: usize) -> BandDesign<T::Lane> {
        BandDesign {
            iir1: self.iir1.spec_lane(i),
            iir2: Seq::new(MAX_POLE_COUNT as nat, |j: int| self.iir2@[j].spec_lane(i)),
            process: self.process,
            iir2_cascade_count: self.iir2_cascade_count,
            iir1_enabled: self.iir1_enabled,
        }
    }

    /// The same design in every lane, each coefficient rounded to the nearest
    /// sample of the lanes' type.
    pub fn from<A: FP>(coeffs: FilterBandCoefficients<A>) -> (r: WideFilterBandCoefficients<T>)
        ensures
            forall|i: usize|
                i < T::spec_lanes() ==> #[trigger] r.spec_lane(i) == coeffs@.spec_cast::<T::Lane>(),
    {
        let mut iir2_cascade = WideIIR2Coefficients::empty_cascade();
        let mut j: usize = 0;
        while j < MAX_POLE_COUNT
            invariant
                j <= MAX_POLE_COUNT,
                forall|n: int, i: usize|
                    0 <= n < j && i < T::spec_lanes() ==> #[trigger] iir2_cascade@[n].spec_lane(i)
                        == coeffs.iir2@[n].spec_cast::<T::Lane>(),
            decreases MAX_POLE_COUNT - j,
        {
            iir2_cascade[j] = WideIIR2Coefficients::from(coeffs.iir2[j]);
            j = j + 1;
        }
        let r = WideFilterBandCoefficients {
            iir1: WideIIR1Coefficients::from(coeffs.iir1),
            iir2: iir2_cascade,
            process: coeffs.process,
            iir2_cascade_count: coeffs.iir2_cascade_count,
            iir1_enabled: coeffs.iir1_enabled,
        };
        assert forall|i: usize| i < T::spec_lanes() implies #[trigger] r.spec_lane(i)
            == coeffs@.spec_cast::<T::Lane>() by {
            assert(r.spec_lane(i) =~= coeffs@.spec_cast::<T::Lane>());
        }
        r
    }
}

/// One band of an equaliser that filters one signal per lane.
#[derive(Debug)]
pub struct WideFilterBand<T: WIDE> {
    iir1: WideIIR1<T>,
    iir2: [WideIIR2<T>; MAX_POLE_COUNT],
    iir2_cascade_count: usize,
    process: ProcessType,
}

impl<T: WIDE> Copy for WideFilterBand<T> {

}

impl<T: WIDE> Clone for WideFilterBand<T> {
    fn clone(&self) -> (r: Self)
        ensures
            r == *self,
    {
        *self
    }
}

impl<T: WIDE> WideFilterBand<T> {
    #[verifier::type_invariant]
    spec fn inv(self) -> bool {
        self.iir2_cascade_count <= MAX_POLE_COUNT
    }

    /// The band that lane `i` amounts to: a band of single samples with the
    /// lane's coefficients and memories. A wide band is not set from
    /// parameters, so its lanes carry none.
    pub closed spec fn spec_lane(self, i: usize) -> BandModel<T::Lane> {
        BandModel {
            first_order: self.iir1.spec_lane(i),
            stages: Seq::new(MAX_POLE_COUNT as nat, |j: int| self.iir2@[j].spec_lane(i)),
            cascade_count: self.iir2_cascade_count as nat,
            mode: self.process,
            params: None,
        }
    }

    /// The routine in use.
    pub closed spec fn spec_process(self) -> ProcessType {
        self.process
    }

    /// Every lane runs the routine of the band.
    pub broadcast proof fn lemma_lane_mode(self, i: usize)
        ensures
            (#[trigger] self.spec_lane(i)).mode == self.spec_process(),
    {
    }

    /// A band at rest in every lane with the coefficients of `coeffs`. Every
    /// second-order stage starts with the coefficients of stage 0; `update`
    /// gives each stage its own. A cascade count beyond the capacity is held
    /// at the capacity.
    pub fn from(coeffs: &WideFilterBandCoefficients<T>) -> (r: WideFilterBand<T>)
        ensures
            r.spec_process() == coeffs.process,
            forall|i: usize|
                i < T::spec_lanes() ==> #[trigger] r.spec_lane(i) == BandModel::spec_from(
                    coeffs.spec_lane(i),
                ),
    {
        let iir2_cascade_count: usize = if coeffs.iir2_cascade_count <= MAX_POLE_COUNT {
            coeffs.iir2_cascade_count
        } else {
            MAX_POLE_COUNT
        };
        let r = WideFilterBand {
            iir1: WideIIR1::new(coeffs.iir1),
            iir2: [WideIIR2::new(coeffs.iir2[0]);MAX_POLE_COUNT],
            iir2_cascade_count,
            process: coeffs.process,
        };
        assert forall|i: usize| i < T::spec_lanes() implies #[trigger] r.spec_lane(i)
            == BandModel::spec_from(coeffs.spec_lane(i)) by {
            assert(r.spec_lane(i) =~= BandModel::spec_from(coeffs.spec_lane(i)));
        }
        r
    }

    /// Runs the first-order stage alone, in every lane.
    pub fn process_iir1_only(&mut self, x: T) -> (y: T)
        ensures
            final(self).spec_process() == old(self).spec_process(),
            forall|i: usize|
                i < T::spec_lanes() ==> #[trigger] final(self).spec_lane(i) == old(self).spec_lane(
                    i,
                ).spec_after_iir1_only(x.spec_lane(i)),
            forall|i: usize|
                i < T::spec_lanes() ==> #[trigger] y.spec_lane(i) == old(self).spec_lane(
                    i,
                ).spec_output_iir1_only(x.spec_lane(i)),
    {
        proof {
            use_type_invariant(&*self);
        }
        let mut stage = self.iir1;
        let y = stage.process(x);
        self.iir1 = stage;
        assert forall|i: usize| i < T::spec_lanes() implies #[trigger] self.spec_lane(i) == old(
            self,
        ).spec_lane(i).spec_after_iir1_only(x.spec_lane(i)) by {
            assert(self.spec_lane(i) =~= old(self).spec_lane(i).spec_after_iir1_only(
                x.spec_lane(i),
            ));
        }
        y
    }

    /// Runs stage 0 of the cascade alone, in every lane.
    pub fn process_iir2_only(&mut self, x: T) -> (y: T)
        ensures
            final(self).spec_process() == old(self).spec_process(),
            forall|i: usize|
                i < T::spec_lanes() ==> #[trigger] final(self).spec_lane(i) == old(self).spec_lane(
                    i,
                ).spec_after_iir2_only(x.spec_lane(i)),
            forall|i: usize|
                i < T::spec_lanes() ==> #[trigger] y.spec_lane(i) == old(self).spec_lane(
                    i,
                ).spec_output_iir2_only(x.spec_lane(i)),
    {
        proof {
            use_type_invariant(&*self);
        }
        let ghost stage_in = self.iir2[0];
        let mut stage = self.iir2[0];
        let y = stage.process(x);
        self.iir2[0] = stage;
        assert forall|i: usize| i < T::spec_lanes() implies #[trigger] self.spec_lane(i) == old(
            self,
        ).spec_lane(i).spec_after_iir2_only(x.spec_lane(i)) by {
            let before = old(self).spec_lane(i);
            assert(spec_cascade_signal(before.stages, 0, x.spec_lane(i)) == x.spec_lane(i));
            assert(stage.spec_lane(i) == stage_in.spec_lane(i).spec_after(x.spec_lane(i)));
            assert(self.spec_lane(i) =~= before.spec_after_iir2_only(x.spec_lane(i)));
        }
        assert forall|i: usize| i < T::spec_lanes() implies #[trigger] y.spec_lane(i) == old(
            self,
        ).spec_lane(i).spec_output_iir2_only(x.spec_lane(i)) by {
            let before = old(self).spec_lane(i);
            assert(spec_cascade_signal(before.stages, 0, x.spec_lane(i)) == x.spec_lane(i));
            assert(before.stages[0] == stage_in.spec_lane(i));
        }
        y
    }

    /// Runs the sample of every lane through the cascade, stage 0 first.
    pub fn process_even_order_cascade(&mut self, x: T) -> (y: T)
        ensures
            final(self).spec_process() == old(self).spec_process(),
            forall|i: usize|
                i < T::spec_lanes() ==> #[trigger] final(self).spec_lane(i) == old(self).spec_lane(
                    i,
                ).spec_after_even_order_cascade(x.spec_lane(i)),
            forall|i: usize|
                i < T::spec_lanes() ==> #[trigger] y.spec_lane(i) == old(self).spec_lane(
                    i,
                ).spec_output_even_order_cascade(x.spec_lane(i)),
    {
        self.run_cascade(x)
    }

    /// Runs the sample of every lane through the first-order stage and then
    /// through the cascade, stage 0 first.
    pub fn process_odd_order_cascade(&mut self, x: T) -> (y: T)
        ensures
            final(self).spec_process() == old(self).spec_process(),
            forall|i: usize|
                i < T::spec_lanes() ==> #[trigger] final(self).spec_lane(i) == old(self).spec_lane(
                    i,
                ).spec_after_odd_order_cascade(x.spec_lane(i)),
            forall|i: usize|
                i < T::spec_lanes() ==> #[trigger] y.spec_lane(i) == old(self).spec_lane(
                    i,
                ).spec_output_odd_order_cascade(x.spec_lane(i)),
    {
        let x1 = self.process_iir1_only(x);
        let ghost mid = *self;
        let y = self.run_cascade(x1);
        assert forall|i: usize| i < T::spec_lanes() implies #[trigger] self.spec_lane(i) == old(
            self,
        ).spec_lane(i).spec_after_odd_order_cascade(x.spec_lane(i)) && y.spec_lane(i) == old(
            self,
        ).spec_lane(i).spec_output_odd_order_cascade(x.spec_lane(i)) by {
            let m = mid.spec_lane(i);
            assert(x1.spec_lane(i) == old(self).spec_lane(i).spec_output_iir1_only(
                x.spec_lane(i),
            ));
            assert(y.spec_lane(i) == spec_cascade_signal(
                m.stages,
                m.cascade_count,
                x1.spec_lane(i),
            ));
        }
        y
    }

    fn run_cascade(&mut self, x: T) -> (y: T)
        ensures
            final(self).spec_process() == old(self).spec_process(),
            forall|i: usize|
                i < T::spec_lanes() ==> #[trigger] final(self).spec_lane(i) == (BandModel {
                    stages: spec_cascade_after(
                        old(self).spec_lane(i).stages,
                        old(self).spec_lane(i).cascade_count,
                        x.spec_lane(i),
                    ),
                    ..old(self).spec_lane(i)
                }),
            forall|i: usize|
                i < T::spec_lanes() ==> #[trigger] y.spec_lane(i) == spec_cascade_signal(
                    old(self).spec_lane(i).stages,
                    old(self).spec_lane(i).cascade_count,
                    x.spec_lane(i),
                ),
    {
        proof {
            use_type_invariant(&*self);
        }
        let ghost before = *self;
        let mut signal = x;
        let mut n: usize = 0;
        assert forall|i: usize| i < T::spec_lanes() implies #[trigger] self.spec_lane(i)
            == (BandModel {
            stages: spec_cascade_after(before.spec_lane(i).stages, 0, x.spec_lane(i)),
            ..before.spec_lane(i)
        }) by {
            assert(self.spec_lane(i).stages =~= spec_cascade_after(
                before.spec_lane(i).stages,
                0,
                x.spec_lane(i),
            ));
        }
        while n < self.iir2_cascade_count
            invariant
                n <= self.iir2_cascade_count <= MAX_POLE_COUNT,
                self.iir2_cascade_count == before.iir2_cascade_count,
                self.process == before.process,
                forall|i: usize|
                    i < T::spec_lanes() ==> #[trigger] self.spec_lane(i) == (BandModel {
                        stages: spec_cascade_after(
                            before.spec_lane(i).stages,
                            n as nat,
                            x.spec_lane(i),
                        ),
                        ..before.spec_lane(i)
                    }),
                forall|i: usize|
                    i < T::spec_lanes() ==> #[trigger] signal.spec_lane(i) == spec_cascade_signal(
                        before.spec_lane(i).stages,
                        n as nat,
                        x.spec_lane(i),
                    ),
            decreases self.iir2_cascade_count - n,
        {
            let ghost entering = *self;
            let ghost fed = signal;
            let ghost stage_in = self.iir2[n as int];
            let mut stage = self.iir2[n];
            signal = stage.process(signal);
            self.iir2[n] = stage;
            n = n + 1;
            assert forall|i: usize| i < T::spec_lanes() implies #[trigger] self.spec_lane(i)
                == (BandModel {
                stages: spec_cascade_after(before.spec_lane(i).stages, n as nat, x.spec_lane(i)),
                ..before.spec_lane(i)
            }) by {
                let b = before.spec_lane(i);
                let e = entering.spec_lane(i);
                assert(e.stages[n - 1] == b.stages[n - 1]);
                assert(e.stages[n - 1] == stage_in.spec_lane(i));
                assert(fed.spec_lane(i) == spec_cascade_signal(
                    b.stages,
                    (n - 1) as nat,
                    x.spec_lane(i),
                ));
                assert(stage.spec_lane(i) == stage_in.spec_lane(i).spec_after(fed.spec_lane(i)));
                assert forall|j: int| 0 <= j < MAX_POLE_COUNT implies #[trigger] self.spec_lane(
                    i,
                ).stages[j] == spec_cascade_after(b.stages, n as nat, x.spec_lane(i))[j] by {
                    if j != n - 1 {
                        assert(self.spec_lane(i).stages[j] == e.stages[j]);
                    }
                }
                assert(self.spec_lane(i).stages =~= spec_cascade_after(
                    b.stages,
                    n as nat,
                    x.spec_lane(i),
                ));
            }
            assert forall|i: usize| i < T::spec_lanes() implies #[trigger] signal.spec_lane(i)
                == spec_cascade_signal(before.spec_lane(i).stages, n as nat, x.spec_lane(i)) by {
                let b = before.spec_lane(i);
                let e = entering.spec_lane(i);
                assert(e.stages[n - 1] == b.stages[n - 1]);
                assert(e.stages[n - 1] == stage_in.spec_lane(i));
                assert(fed.spec_lane(i) == spec_cascade_signal(
                    b.stages,
                    (n - 1) as nat,
                    x.spec_lane(i),
                ));
            }
        }
        signal
    }

    /// Filters one sample in every lane with the routine in use: each lane
    /// does what a band of single samples does with the lane's sample.
    pub fn process(&mut self, x: T) -> (y: T)
        ensures
            final(self).spec_process() == old(self).spec_process(),
            forall|i: usize|
                i < T::spec_lanes() ==> #[trigger] final(self).spec_lane(i) == old(self).spec_lane(
                    i,
                ).spec_after(x.spec_lane(i)),
            forall|i: usize|
                i < T::spec_lanes() ==> #[trigger] y.spec_lane(i) == old(self).spec_lane(
                    i,
                ).spec_output(x.spec_lane(i)),
    {
        broadcast use WideFilterBand::lemma_lane_mode;

        match self.process {
            ProcessType::ProcessIIR1Only => self.process_iir1_only(x),
            ProcessType::ProcessIIR2Only => self.process_iir2_only(x),
            ProcessType::ProcessEvenOrderCascade => self.process_even_order_cascade(x),
            ProcessType::ProcessOddOrderCascade => self.process_odd_order_cascade(x),
        }
    }

    /// The routine in use.
    pub fn get_process(&self) -> (r: ProcessType)
        ensures
            r == self.spec_process(),
    {
        self.process
    }

    /// Takes over the coefficients, the cascade count and the routine of
    /// `coeffs`. Every memory stays as it is. A cascade count beyond the
    /// capacity is held at the capacity.
    pub fn update(&mut self, coeffs: &WideFilterBandCoefficients<T>)
        ensures
            final(self).spec_process() == coeffs.process,
            forall|i: usize|
                i < T::spec_lanes() ==> #[trigger] final(self).spec_lane(i) == old(self).spec_lane(
                    i,
                ).spec_update(coeffs.spec_lane(i)),
    {
        broadcast use {IIR1::lemma_of, IIR2::lemma_of};

        proof {
            use_type_invariant(&*self);
        }
        let ghost before = *self;
        let mut j: usize = 0;
        while j < MAX_POLE_COUNT
            invariant
                j <= MAX_POLE_COUNT,
                self.iir2_cascade_count <= MAX_POLE_COUNT,
                self.iir1 == before.iir1,
                forall|n: int|
                    0 <= n < j ==> (#[trigger] self.iir2@[n]).coefficients() == coeffs.iir2@[n],
                forall|n: int|
                    0 <= n < j ==> (#[trigger] self.iir2@[n]).state1() == before.iir2@[n].state1(),
                forall|n: int|
                    0 <= n < j ==> (#[trigger] self.iir2@[n]).state2() == before.iir2@[n].state2(),
                forall|n: int| j <= n < MAX_POLE_COUNT ==> self.iir2@[n] == before.iir2@[n],
            decreases MAX_POLE_COUNT - j,
        {
            let mut stage = self.iir2[j];
            stage.update_coefficients(coeffs.iir2[j]);
            self.iir2[j] = stage;
            j = j + 1;
        }
        let mut stage = self.iir1;
        stage.update_coefficients(coeffs.iir1);
        self.iir1 = stage;
        self.iir2_cascade_count = if coeffs.iir2_cascade_count <= MAX_POLE_COUNT {
            coeffs.iir2_cascade_count
        } else {
            MAX_POLE_COUNT
        };
        self.process = coeffs.process;
        assert forall|i: usize| i < T::spec_lanes() implies #[trigger] self.spec_lane(i)
            == before.spec_lane(i).spec_update(coeffs.spec_lane(i)) by {
            assert(self.spec_lane(i) =~= before.spec_lane(i).spec_update(coeffs.spec_lane(i)));
        }
    }
}

} // verus!
