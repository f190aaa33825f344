//! The index post-processor: Sensirion's gas index algorithm, which turns
//! the raw ticks of one gas channel into an air-quality index. One instance
//! serves one channel and keeps that channel's calibration state.

use vstd::prelude::*;

verus! {

/// `gas_index_algorithm::GasIndexAlgorithm`: the calibration state of one gas
/// channel. Nothing inside it is visible here.
#[verifier::external_type_specification]
#[verifier::external_body]
pub struct ExGasIndexAlgorithm(gas_index_algorithm::GasIndexAlgorithm);

/// The least index that a post-processor gives: during its first 45 seconds,
/// while it has nothing to go by.
pub const INDEX_MIN: i32 = 0;

/// The greatest index that a post-processor gives.
pub const INDEX_MAX: i32 = 500;

/// `GasIndexAlgorithm::process` takes the next raw sample of its channel and
/// returns the channel's index. The index depends on every sample the
/// instance has seen and on how it was set up; all that is claimed of it is
/// the range that the crate documents: zero during the initial blackout, and
/// from 1 to 500 afterwards. Nothing is claimed of the state that the call
/// leaves behind.
pub assume_specification[ gas_index_algorithm::GasIndexAlgorithm::process ](
    algorithm: &mut gas_index_algorithm::GasIndexAlgorithm,
    sraw: i32,
) -> (index: i32)
    ensures
        INDEX_MIN <= index <= INDEX_MAX,
;

/// An index lies in the range that a post-processor keeps to.
pub open spec fn index_in_range(index: i32) -> bool {
    INDEX_MIN <= index <= INDEX_MAX
}

} // verus!
