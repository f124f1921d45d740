//! The runtime's composition-time configuration: its protocol version, its
//! resource limits, and each module's parameters, passed explicitly to the
//! pipeline instead of living in process-wide state.

use vstd::prelude::*;
use crate::registry::DispatchWeights;
use crate::weights::WeightLimits;

verus! {

/// Identifies the protocol this runtime speaks. Two nodes whose `spec_version`
/// differs must not exchange blocks produced under incompatible logic.
pub struct RuntimeVersion {
    /// The protocol family name.
    pub spec_name: String,
    /// The name of this implementation of the protocol.
    pub impl_name: String,
    /// Version of the block-authoring interface.
    pub authoring_version: u32,
    /// Version of the state-transition logic itself.
    pub spec_version: u32,
    /// Version of the implementation; irrelevant to consensus.
    pub impl_version: u32,
    /// Version of the extrinsic wire format.
    pub transaction_version: u32,
}

/// Everything the runtime is configured with at composition time.
pub struct RuntimeConfig {
    /// The declared protocol version.
    pub version: RuntimeVersion,
    /// Weight and length budgets.
    pub limits: WeightLimits,
    /// Declared cost of every dispatchable action.
    pub dispatch_weights: DispatchWeights,
    /// The least amount the timestamp must advance by between blocks.
    pub minimum_period: u64,
    /// How far past the locally supplied value a block's timestamp may lie.
    pub timestamp_tolerance: u64,
    /// Milliseconds each block-production slot lasts.
    pub slot_duration: u64,
    /// Slots per epoch.
    pub epoch_duration: u64,
    /// Numerator of the probability that a slot has a primary block.
    pub c_numerator: u64,
    /// Denominator of that probability.
    pub c_denominator: u64,
}

impl RuntimeConfig {
    /// A usable configuration.
    pub open spec fn wf(self) -> bool {
        &&& self.limits.wf()
        &&& self.epoch_duration >= 1
        &&& self.c_denominator >= 1
    }
}

} // verus!
