//! Weight and length budgets.
//!
//! A weight is an abstract, time-proportional execution cost. Every block has
//! a fixed weight budget and a fixed encoded-length budget; every extrinsic
//! pays a fixed base weight on top of the declared cost of its call.

use vstd::prelude::*;

verus! {

/// The fixed resource limits a runtime is configured with.
pub struct WeightLimits {
    /// Total weight all extrinsics of one block may consume, overhead included.
    pub max_block_weight: u64,
    /// Weight one normal-class extrinsic may consume, base weight included.
    pub max_extrinsic_weight: u64,
    /// Total encoded length (in bytes) of all extrinsics of one block.
    pub max_block_length: u32,
    /// Fixed weight charged for every extrinsic before its call runs.
    pub extrinsic_base_weight: u64,
    /// Fixed weight of the block-import machinery, charged at initialization.
    pub block_execution_weight: u64,
}

impl WeightLimits {
    /// A usable configuration: the fixed overheads fit inside the budgets.
    pub open spec fn wf(self) -> bool {
        &&& self.extrinsic_base_weight <= self.max_extrinsic_weight
        &&& self.max_extrinsic_weight <= self.max_block_weight
        &&& self.block_execution_weight <= self.max_block_weight
    }
}

/// The block weight budget admits one more extrinsic of the given call weight
/// on top of what the block has already consumed.
pub open spec fn spec_fits_block_weight(limits: WeightLimits, used: u64, call_weight: u64) -> bool {
    used + limits.extrinsic_base_weight + call_weight <= limits.max_block_weight
}

/// One normal-class extrinsic of the given call weight is within the
/// per-extrinsic weight bound.
pub open spec fn spec_fits_extrinsic_weight(limits: WeightLimits, call_weight: u64) -> bool {
    limits.extrinsic_base_weight + call_weight <= limits.max_extrinsic_weight
}

/// The block length budget admits one more extrinsic of the given encoded length.
pub open spec fn spec_fits_block_length(limits: WeightLimits, used: u32, len: u32) -> bool {
    used + len <= limits.max_block_length
}

/// Decides whether an extrinsic of the given call weight still fits the block
/// weight budget; arithmetic that would overflow counts as budget exhausted.
pub fn fits_block_weight(limits: &WeightLimits, used: u64, call_weight: u64) -> (r: bool)
    ensures
        r == spec_fits_block_weight(*limits, used, call_weight),
{
    match used.checked_add(limits.extrinsic_base_weight) {
        Some(with_base) => match with_base.checked_add(call_weight) {
            Some(total) => total <= limits.max_block_weight,
            None => false,
        },
        None => false,
    }
}

/// Decides whether one extrinsic of the given call weight respects the
/// per-extrinsic weight bound.
pub fn fits_extrinsic_weight(limits: &WeightLimits, call_weight: u64) -> (r: bool)
    ensures
        r == spec_fits_extrinsic_weight(*limits, call_weight),
{
    match limits.extrinsic_base_weight.checked_add(call_weight) {
        Some(total) => total <= limits.max_extrinsic_weight,
        None => false,
    }
}

/// Decides whether an extrinsic of the given encoded length still fits the
/// block length budget.
pub fn fits_block_length(limits: &WeightLimits, used: u32, len: u32) -> (r: bool)
    ensures
        r == spec_fits_block_length(*limits, used, len),
{
    match used.checked_add(len) {
        Some(total) => total <= limits.max_block_length,
        None => false,
    }
}

} // verus!
