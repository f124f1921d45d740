//! The read-only consensus parameter surface: epoch configuration, authority
//! sets and randomness, each a pure read of a committed snapshot with no
//! process-wide cache — and the inherent-data contract between the block
//! author and every validator.

use vstd::prelude::*;
use crate::config::{RuntimeConfig, RuntimeVersion};
use crate::block::Block;
use crate::extrinsic::Extrinsic;
use crate::registry::{Call, TimestampCall};
use crate::state::{ChainState, StateModel};

verus! {

/// The epoch parameters the external block-production engine consumes,
/// derived from committed module state at one block.
pub struct EpochConfiguration {
    /// Milliseconds each slot lasts.
    pub slot_duration: u64,
    /// Slots per epoch.
    pub epoch_length: u64,
    /// Numerator of the primary-slot probability.
    pub c_numerator: u64,
    /// Denominator of the primary-slot probability.
    pub c_denominator: u64,
    /// The epoch's authorities as (public key, weight) pairs.
    pub authorities: Vec<(u64, u64)>,
    /// The randomness seed of the epoch.
    pub randomness: u64,
}

/// The mathematical value of an epoch configuration.
#[verifier::ext_equal]
pub struct EpochConfigurationModel {
    pub slot_duration: u64,
    pub epoch_length: u64,
    pub c_numerator: u64,
    pub c_denominator: u64,
    pub authorities: Seq<(u64, u64)>,
    pub randomness: u64,
}

impl View for EpochConfiguration {
    type V = EpochConfigurationModel;

    open spec fn view(&self) -> EpochConfigurationModel {
        EpochConfigurationModel {
            slot_duration: self.slot_duration,
            epoch_length: self.epoch_length,
            c_numerator: self.c_numerator,
            c_denominator: self.c_denominator,
            authorities: self.authorities@,
            randomness: self.randomness,
        }
    }
}

/// What the epoch-configuration query answers: a pure function of the
/// configuration and the queried snapshot.
pub open spec fn spec_configuration(cfg: RuntimeConfig, s: StateModel) -> EpochConfigurationModel {
    EpochConfigurationModel {
        slot_duration: cfg.slot_duration,
        epoch_length: cfg.epoch_duration,
        c_numerator: cfg.c_numerator,
        c_denominator: cfg.c_denominator,
        authorities: s.babe.authorities,
        randomness: s.randomness,
    }
}

/// Copies an authority list.
fn copy_pairs(v: &Vec<(u64, u64)>) -> (r: Vec<(u64, u64)>)
    ensures
        r@ == v@,
{
    let mut r: Vec<(u64, u64)> = Vec::new();
    let mut i: usize = 0;
    while i < v.len()
        invariant
            i <= v.len(),
            r@ == v@.take(i as int),
        decreases v.len() - i,
    {
        r.push(v[i]);
        proof {
            assert(v@.take(i as int + 1) =~= v@.take(i as int).push(v@[i as int]));
        }
        i += 1;
    }
    proof {
        assert(v@.take(v@.len() as int) =~= v@);
    }
    r
}

/// The declared protocol version of this runtime. Callers compare
/// `spec_version` before exchanging blocks.
pub fn version(cfg: &RuntimeConfig) -> (r: &RuntimeVersion)
    ensures
        r == &cfg.version,
{
    &cfg.version
}

/// Reads the epoch configuration committed in a snapshot. Callable against
/// any historical snapshot; a pure read, so equal snapshots answer equally.
pub fn configuration(cfg: &RuntimeConfig, s: &ChainState) -> (r: EpochConfiguration)
    ensures
        r@ == spec_configuration(*cfg, s@),
{
    let r = EpochConfiguration {
        slot_duration: cfg.slot_duration,
        epoch_length: cfg.epoch_duration,
        c_numerator: cfg.c_numerator,
        c_denominator: cfg.c_denominator,
        authorities: copy_pairs(&s.babe.authorities),
        randomness: s.randomness,
    };
    proof {
        assert(r@ =~= spec_configuration(*cfg, s@));
    }
    r
}

/// Idempotence of the epoch-configuration query: a pure read of the
/// snapshot, so querying equal snapshots twice answers the identical
/// configuration — authority count, epoch length and all.
pub proof fn lemma_configuration_idempotent(cfg: RuntimeConfig, s1: StateModel, s2: StateModel)
    requires
        s1 == s2,
    ensures
        spec_configuration(cfg, s1) == spec_configuration(cfg, s2),
        spec_configuration(cfg, s1).authorities.len() == s1.babe.authorities.len(),
        spec_configuration(cfg, s1).epoch_length == cfg.epoch_duration,
{
}

/// The slot the current epoch started at.
pub open spec fn spec_current_epoch_start(cfg: RuntimeConfig, s: StateModel) -> int {
    s.babe.genesis_slot + s.babe.epoch_index * cfg.epoch_duration
}

/// Computes the first slot of the current epoch from the committed epoch
/// index.
pub fn current_epoch_start(cfg: &RuntimeConfig, s: &ChainState) -> (r: u64)
    requires
        spec_current_epoch_start(*cfg, s@) <= u64::MAX,
    ensures
        r == spec_current_epoch_start(*cfg, s@),
{
    s.babe.genesis_slot + s.babe.epoch_index * cfg.epoch_duration
}

/// The finality authority set committed in a snapshot, with its monotonically
/// increasing set identifier.
pub struct AuthoritySet {
    pub authorities: Vec<(u64, u64)>,
    pub set_id: u64,
}

/// Reads the finality authority set committed in a snapshot; a pure read.
pub fn grandpa_authorities(s: &ChainState) -> (r: AuthoritySet)
    ensures
        r.authorities@ == s@.grandpa.authorities,
        r.set_id == s@.grandpa.set_id,
{
    AuthoritySet { authorities: copy_pairs(&s.grandpa.authorities), set_id: s.grandpa.set_id }
}

/// Reads the randomness seed committed in a snapshot: a value derived
/// deterministically from recent block history by the randomness module.
pub fn random_seed(s: &ChainState) -> (r: u64)
    ensures
        r == s@.randomness,
{
    s.randomness
}

/// An opaque proof that a key belonged to an authority at some point; only
/// the optional equivocation-proof collaborator can mint one.
pub struct KeyOwnershipProof {
    pub bytes: Vec<u8>,
}

/// Asks for a key-ownership proof. This composition carries no
/// equivocation-proof collaborator, so the capability reports unsupported:
/// the answer is always nothing.
pub fn generate_key_ownership_proof(_authority: u64) -> (r: Option<KeyOwnershipProof>)
    ensures
        r is None,
{
    None
}

/// Submits an equivocation report. This composition carries no
/// equivocation-proof collaborator, so the capability reports unsupported:
/// the answer is always nothing.
pub fn submit_report_equivocation(_offender: u64) -> (r: Option<()>)
    ensures
        r is None,
{
    None
}

/// The named inherent values the external collaborators supply for one block:
/// here, the local wall-clock timestamp.
pub struct InherentData {
    pub timestamp: u64,
}

/// The inherent extrinsics a block author must place for the supplied data:
/// exactly one timestamp call carrying the supplied value.
pub fn inherent_extrinsics(data: &InherentData) -> (r: Vec<Extrinsic>)
    ensures
        r@ == seq![
            Extrinsic::Inherent {
                call: Call::Timestamp(TimestampCall::SetNow { now: data.timestamp }),
            },
        ],
{
    let r: Vec<Extrinsic> = vec![
        Extrinsic::Inherent {
            call: Call::Timestamp(TimestampCall::SetNow { now: data.timestamp }),
        },
    ];
    proof {
        assert(r@ =~= seq![
            Extrinsic::Inherent {
                call: Call::Timestamp(TimestampCall::SetNow { now: data.timestamp }),
            },
        ]);
    }
    r
}

/// Which inherent check a block failed.
#[derive(Clone, Copy, Debug, PartialEq, Eq, Structural)]
pub enum InherentError {
    /// The block's timestamp exceeds the locally supplied value plus the
    /// configured tolerance.
    TimestampTooFarInFuture,
}

/// The verdict of checking a block's inherents against locally supplied
/// data: fatal to this block, never to the node.
#[derive(Clone, Copy, Debug, PartialEq, Eq, Structural)]
pub enum CheckInherentsResult {
    /// Every inherent is a plausible derivation of the supplied data.
    Satisfied,
    /// Some inherent is not; the named check failed.
    Unsatisfied(InherentError),
}

/// An extrinsic is a plausible timestamp inherent for the supplied data: it
/// may advance past the local value only by the configured tolerance.
/// (That it never regresses is enforced by dispatch itself, which requires
/// the minimum period of advance.)
pub open spec fn spec_inherent_plausible(cfg: RuntimeConfig, xt: Extrinsic, supplied: u64) -> bool {
    match xt {
        Extrinsic::Inherent { call: Call::Timestamp(TimestampCall::SetNow { now }) } => now
            <= supplied + cfg.timestamp_tolerance,
        _ => true,
    }
}

/// Checks a block's inherents against locally supplied data: every node must
/// be able to accept the author's inherents as a derivation of its own data.
pub fn check_inherents(cfg: &RuntimeConfig, block: &Block, data: &InherentData) -> (r:
    CheckInherentsResult)
    ensures
        r == CheckInherentsResult::Satisfied <==> (forall|i: int|
            0 <= i < block@.extrinsics.len() ==> spec_inherent_plausible(
                *cfg,
                block@.extrinsics[i],
                data.timestamp,
            )),
        r matches CheckInherentsResult::Unsatisfied(e) ==> e
            == InherentError::TimestampTooFarInFuture,
{
    let n = block.extrinsics.len();
    let mut i: usize = 0;
    while i < n
        invariant
            i <= n,
            n == block.extrinsics.len(),
            forall|j: int| 0 <= j < i ==> spec_inherent_plausible(
                *cfg,
                block@.extrinsics[j],
                data.timestamp,
            ),
        decreases n - i,
    {
        let plausible = match &block.extrinsics[i] {
            Extrinsic::Inherent { call: Call::Timestamp(TimestampCall::SetNow { now }) } => {
                match data.timestamp.checked_add(cfg.timestamp_tolerance) {
                    Some(limit) => *now <= limit,
                    None => true,
                }
            },
            _ => true,
        };
        if !plausible {
            return CheckInherentsResult::Unsatisfied(InherentError::TimestampTooFarInFuture);
        }
        i += 1;
    }
    CheckInherentsResult::Satisfied
}

} // verus!
