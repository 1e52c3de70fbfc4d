use vstd::prelude::*;

pub mod complex;
pub mod filter_band;
pub mod filter_band_wide;
pub mod first_order_iir;
pub mod first_order_iir_wide;
pub mod linkwitz_riley;
pub mod linkwitz_riley_wide;
pub mod second_order_iir;
pub mod second_order_iir_wide;
pub mod stereo_filter_band;
pub mod units;
pub mod wide_units;

verus! {

/// Capacity of a band's second-order cascade.
pub const MAX_POLE_COUNT: usize = 32;

} // verus!
