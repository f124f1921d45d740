//! Extrinsics: the units of input to block execution. Either a signed
//! transaction carrying a call, its origin account, a signature and the
//! ordered bundle of validity-check values, or an unsigned inherent whose
//! data every honest node can derive on its own.

use vstd::prelude::*;
use crate::registry::{AccountId, Call};

verus! {

/// A block hash, an opaque digest word.
pub type Hash64 = u64;

/// A block number.
pub type BlockNumber = u32;

/// The mortality window of a signed extrinsic: the block range it is valid
/// in, anchored at a checkpoint block whose hash the extrinsic also names.
#[derive(Clone, Copy, Debug, PartialEq, Eq, Structural)]
pub enum Era {
    /// Valid at every block of the chain identified by the genesis hash.
    Immortal,
    /// Valid only while `birth <= block number <= death`, and only if the
    /// chain's hash at height `birth` equals the declared checkpoint hash.
    Mortal { birth: BlockNumber, death: BlockNumber },
}

/// The ordered tuple of validity-check values attached to a signed extrinsic.
/// The checks are applied in field order and the first failure short-circuits
/// the rest; the weight and length check closes the chain and carries no data.
#[derive(Clone, Copy, Debug, PartialEq, Eq, Structural)]
pub struct SignedExtra {
    /// Must equal the runtime's declared spec version.
    pub spec_version: u32,
    /// Must equal the runtime's declared transaction format version.
    pub transaction_version: u32,
    /// Must equal the chain's genesis hash.
    pub genesis_hash: Hash64,
    /// The mortality window.
    pub era: Era,
    /// The hash of the chain at the era's birth height (the genesis hash for
    /// an immortal extrinsic).
    pub checkpoint_hash: Hash64,
    /// Must equal the signing account's committed next nonce.
    pub nonce: u32,
}

/// A unit of input to block execution.
#[derive(Clone, Copy, Debug, PartialEq, Eq, Structural)]
pub enum Extrinsic {
    /// Data the block author injects deterministically (e.g. the timestamp);
    /// dispatched under the unsigned origin, not individually signed.
    Inherent { call: Call },
    /// A transaction: a call, its signing account, the signature (verified by
    /// the external key machinery, carried opaquely here) and the validity
    /// check bundle.
    Signed { who: AccountId, signature: u64, call: Call, extra: SignedExtra },
}

} // verus!
