use vstd::prelude::*;

use crate::units::{cast, spec_cast, FP};

verus! {

/// A vector of samples that are worked on side by side, one signal per lane.
///
/// A wide value is known by its lanes: contracts say what each lane of a
/// result holds, in the arithmetic of the lane's own sample type. As with
/// [`FP`], what the library proves holds for every implementation that keeps
/// the promises below; the promises themselves are taken on trust.
pub trait WIDE: Sized + Copy {
    /// The sample type of a single lane.
    type Lane: FP;

    /// The number of lanes.
    spec fn spec_lanes() -> usize;

    /// The sample in lane `i`.
    spec fn spec_lane(self, i: usize) -> Self::Lane;

    /// The value that holds `n` in every lane.
    fn splat(n: Self::Lane) -> (r: Self)
        ensures
            forall|i: usize| i < Self::spec_lanes() ==> #[trigger] r.spec_lane(i) == n,
    ;

    /// The value that holds, in every lane, the lane sample nearest to `n`.
    fn from_w<A: FP>(n: A) -> (r: Self)
        ensures
            forall|i: usize|
                i < Self::spec_lanes() ==> #[trigger] r.spec_lane(i) == spec_cast::<A, Self::Lane>(
                    n,
                ),
    {
        Self::splat(cast::<A, Self::Lane>(n))
    }

    /// The sums of the lanes.
    fn add(self, rhs: Self) -> (r: Self)
        ensures
            forall|i: usize|
                i < Self::spec_lanes() ==> #[trigger] r.spec_lane(i) == self.spec_lane(i).spec_add(
                    rhs.spec_lane(i),
                ),
    ;

    /// The differences of the lanes.
    fn sub(self, rhs: Self) -> (r: Self)
        ensures
            forall|i: usize|
                i < Self::spec_lanes() ==> #[trigger] r.spec_lane(i) == self.spec_lane(i).spec_sub(
                    rhs.spec_lane(i),
                ),
    ;

    /// The products of the lanes.
    fn mul(self, rhs: Self) -> (r: Self)
        ensures
            forall|i: usize|
                i < Self::spec_lanes() ==> #[trigger] r.spec_lane(i) == self.spec_lane(i).spec_mul(
                    rhs.spec_lane(i),
                ),
    ;
}

} // verus!
