//! The extrinsic validity chain: the ordered checks every signed extrinsic
//! must pass before its call is dispatched. The same chain runs at
//! transaction-pool admission and, against the running block budgets, right
//! before in-block dispatch; the first failing check short-circuits the rest.

use vstd::prelude::*;
use crate::codec::{encoded_len, lemma_encoded_len_small, spec_encoded_len};
use crate::config::RuntimeConfig;
use crate::extrinsic::{Era, Extrinsic, SignedExtra};
use crate::registry::{AccountId, Call, spec_call_weight, call_weight};
use crate::state::{ChainState, StateModel, account_of};
use crate::weights::{
    spec_fits_block_length, spec_fits_block_weight, spec_fits_extrinsic_weight, fits_block_length,
    fits_block_weight, fits_extrinsic_weight,
};

verus! {

/// Where a candidate transaction came from; the pool may treat not-yet-valid
/// results from its own node more leniently than relayed ones.
#[derive(Clone, Copy, Debug, PartialEq, Eq, Structural)]
pub enum TransactionSource {
    /// Part of a block being imported.
    InBlock,
    /// Authored by this node.
    Local,
    /// Received from the network.
    External,
}

/// Why an extrinsic is not (or not yet) valid.
///
/// Only `Future` is transient: such an extrinsic can still become
/// dispatchable once the chain catches up with its nonce or its mortality
/// window, so a pool may retain it. Every other variant is permanent for the
/// state it was judged against.
#[derive(Clone, Copy, Debug, PartialEq, Eq, Structural)]
pub enum TransactionValidityError {
    /// Behind the chain: an old spec version, a used-up nonce.
    Stale,
    /// Ahead of the chain: a later spec version, a nonce gap, an era not yet
    /// open. May become valid later.
    Future,
    /// The extrinsic's transaction format version is not the runtime's.
    BadTransactionVersion,
    /// The extrinsic names another chain's genesis hash.
    WrongChain,
    /// The mortality window has closed, or its checkpoint does not match the
    /// chain at the declared height.
    Outdated,
    /// The weight or length budget cannot admit this extrinsic.
    ExhaustsResources,
    /// An inherent was submitted to the pool, or failed its dispatch in a
    /// block.
    BadMandatory,
}

/// A dependency tag: the pool orders transactions so that whatever provides a
/// tag runs before whatever requires it.
#[derive(Clone, Copy, Debug, PartialEq, Eq, Structural)]
pub struct TransactionTag {
    pub who: AccountId,
    pub nonce: u32,
}

/// The verdict on a valid transaction: how to prioritize, order and cache it.
#[derive(Clone, Copy, Debug, PartialEq, Eq)]
pub struct ValidTransaction {
    /// Higher dispatches first under congestion.
    pub priority: u64,
    /// The tag this transaction waits for: its account's previous nonce, when
    /// that nonce is not yet used up.
    pub requires_tag: Option<TransactionTag>,
    /// The tag this transaction provides once included.
    pub provides_tag: TransactionTag,
    /// For how many blocks the verdict may be cached before it must be
    /// re-checked.
    pub longevity: u64,
    /// Whether the transaction may be relayed to other nodes.
    pub propagate: bool,
}

/// Which budgets the chain is checked against: the pool checks the per-
/// extrinsic parameter bounds, in-block pre-dispatch checks the running
/// block budgets.
#[derive(Clone, Copy, Debug, PartialEq, Eq, Structural)]
pub enum ValidityMode {
    /// Pool admission or re-validation.
    Pool { source: TransactionSource },
    /// Right before dispatch inside a block.
    InBlock { used_weight: u64, used_length: u32 },
}

/// The era check: inside the window, anchored at the right chain.
/// Yields the failing verdict, or nothing when the check passes.
pub open spec fn spec_check_era(s: StateModel, current: int, era: Era, checkpoint: u64) -> Option<
    TransactionValidityError,
> {
    match era {
        Era::Immortal => None,
        Era::Mortal { birth, death } => if current < birth {
            Some(TransactionValidityError::Future)
        } else if current > death {
            Some(TransactionValidityError::Outdated)
        } else if birth >= s.block_hashes.len() {
            Some(TransactionValidityError::Outdated)
        } else if s.block_hashes[birth as int] != checkpoint {
            Some(TransactionValidityError::Outdated)
        } else {
            None
        },
    }
}

/// The whole validity chain over a signed extrinsic, in check order: spec
/// version, transaction version, genesis hash, era, nonce, then weight and
/// length. `current` (the number of the block being built or validated for)
/// is the snapshot's best block plus one.
pub open spec fn spec_validate_signed(
    cfg: RuntimeConfig,
    s: StateModel,
    who: AccountId,
    call: Call,
    extra: SignedExtra,
    encoded_len: u32,
    mode: ValidityMode,
) -> Result<ValidTransaction, TransactionValidityError> {
    let current = s.block_hashes.len() as int;
    let expected = account_of(s.accounts, who).nonce;
    let w = spec_call_weight(cfg.dispatch_weights, call);
    if extra.spec_version < cfg.version.spec_version {
        Err(TransactionValidityError::Stale)
    } else if extra.spec_version > cfg.version.spec_version {
        Err(TransactionValidityError::Future)
    } else if extra.transaction_version != cfg.version.transaction_version {
        Err(TransactionValidityError::BadTransactionVersion)
    } else if extra.genesis_hash != s.genesis_hash {
        Err(TransactionValidityError::WrongChain)
    } else if spec_check_era(s, current, extra.era, extra.checkpoint_hash) is Some {
        Err(spec_check_era(s, current, extra.era, extra.checkpoint_hash)->Some_0)
    } else if extra.nonce == u32::MAX {
        // the last nonce is never usable, so a nonce can always advance
        Err(TransactionValidityError::Stale)
    } else if extra.nonce < expected {
        Err(TransactionValidityError::Stale)
    } else if extra.nonce > expected && mode is InBlock {
        Err(TransactionValidityError::Future)
    } else if match mode {
        ValidityMode::Pool { .. } => !spec_fits_extrinsic_weight(cfg.limits, w),
        ValidityMode::InBlock { used_weight, .. } => !spec_fits_block_weight(
            cfg.limits,
            used_weight,
            w,
        ),
    } {
        Err(TransactionValidityError::ExhaustsResources)
    } else if match mode {
        ValidityMode::Pool { .. } => encoded_len > cfg.limits.max_block_length,
        ValidityMode::InBlock { used_weight: _, used_length } => !spec_fits_block_length(
            cfg.limits,
            used_length,
            encoded_len,
        ),
    } {
        Err(TransactionValidityError::ExhaustsResources)
    } else {
        Ok(
            ValidTransaction {
                priority: w,
                requires_tag: if extra.nonce > expected {
                    Some(TransactionTag { who, nonce: (extra.nonce - 1) as u32 })
                } else {
                    None
                },
                provides_tag: TransactionTag { who, nonce: extra.nonce },
                longevity: match extra.era {
                    Era::Immortal => u64::MAX,
                    Era::Mortal { death, .. } => (death - current) as u64,
                },
                propagate: match mode {
                    ValidityMode::Pool { source } => !(source is InBlock),
                    ValidityMode::InBlock { .. } => false,
                },
            },
        )
    }
}

/// Runs the era check against a snapshot.
fn check_era(s: &ChainState, current: u32, era: &Era, checkpoint: u64) -> (r: Option<
    TransactionValidityError,
>)
    requires
        s@.wf(),
        current == s@.block_hashes.len(),
    ensures
        r == spec_check_era(s@, current as int, *era, checkpoint),
{
    match era {
        Era::Immortal => None,
        Era::Mortal { birth, death } => {
            if current < *birth {
                Some(TransactionValidityError::Future)
            } else if current > *death {
                Some(TransactionValidityError::Outdated)
            } else if *birth >= current {
                // the window opens at a block the chain does not know yet
                Some(TransactionValidityError::Outdated)
            } else if s.block_hashes[*birth as usize] != checkpoint {
                Some(TransactionValidityError::Outdated)
            } else {
                None
            }
        },
    }
}

/// Runs the validity chain over a signed extrinsic against a snapshot.
pub fn validate_signed(
    cfg: &RuntimeConfig,
    s: &ChainState,
    who: AccountId,
    call: &Call,
    extra: &SignedExtra,
    encoded_len: u32,
    mode: ValidityMode,
) -> (r: Result<ValidTransaction, TransactionValidityError>)
    requires
        s@.wf(),
        s@.block_hashes.len() <= 0xffff_ffff,
    ensures
        r == spec_validate_signed(*cfg, s@, who, *call, *extra, encoded_len, mode),
{
    let current: u32 = block_count(s);
    let expected = s.get_account(who).nonce;
    let w = call_weight(&cfg.dispatch_weights, call);
    if extra.spec_version < cfg.version.spec_version {
        return Err(TransactionValidityError::Stale);
    }
    if extra.spec_version > cfg.version.spec_version {
        return Err(TransactionValidityError::Future);
    }
    if extra.transaction_version != cfg.version.transaction_version {
        return Err(TransactionValidityError::BadTransactionVersion);
    }
    if extra.genesis_hash != s.genesis_hash {
        return Err(TransactionValidityError::WrongChain);
    }
    match check_era(s, current, &extra.era, extra.checkpoint_hash) {
        Some(e) => {
            return Err(e);
        },
        None => {},
    }
    if extra.nonce == u32::MAX {
        return Err(TransactionValidityError::Stale);
    }
    if extra.nonce < expected {
        return Err(TransactionValidityError::Stale);
    }
    let in_block = match mode {
        ValidityMode::InBlock { .. } => true,
        ValidityMode::Pool { .. } => false,
    };
    if extra.nonce > expected && in_block {
        return Err(TransactionValidityError::Future);
    }
    let weight_ok = match mode {
        ValidityMode::Pool { .. } => fits_extrinsic_weight(&cfg.limits, w),
        ValidityMode::InBlock { used_weight, .. } => fits_block_weight(&cfg.limits, used_weight, w),
    };
    if !weight_ok {
        return Err(TransactionValidityError::ExhaustsResources);
    }
    let length_ok = match mode {
        ValidityMode::Pool { .. } => encoded_len <= cfg.limits.max_block_length,
        ValidityMode::InBlock { used_weight: _, used_length } => fits_block_length(
            &cfg.limits,
            used_length,
            encoded_len,
        ),
    };
    if !length_ok {
        return Err(TransactionValidityError::ExhaustsResources);
    }
    Ok(
        ValidTransaction {
            priority: w,
            requires_tag: if extra.nonce > expected {
                Some(TransactionTag { who, nonce: extra.nonce - 1 })
            } else {
                None
            },
            provides_tag: TransactionTag { who, nonce: extra.nonce },
            longevity: match extra.era {
                Era::Immortal => u64::MAX,
                Era::Mortal { death, .. } => (death - current) as u64,
            },
            propagate: match mode {
                ValidityMode::Pool { source } => !matches!(source, TransactionSource::InBlock),
                ValidityMode::InBlock { .. } => false,
            },
        },
    )
}

/// What the pool-admission query answers for any extrinsic: the validity
/// chain for a signed one, and a refusal for an inherent, which only a block
/// author may place.
pub open spec fn spec_validate_transaction(
    cfg: RuntimeConfig,
    s: StateModel,
    source: TransactionSource,
    xt: Extrinsic,
) -> Result<ValidTransaction, TransactionValidityError> {
    match xt {
        Extrinsic::Signed { who, signature, call, extra } => spec_validate_signed(
            cfg,
            s,
            who,
            call,
            extra,
            spec_encoded_len(xt) as u32,
            ValidityMode::Pool { source },
        ),
        Extrinsic::Inherent { .. } => Err(TransactionValidityError::BadMandatory),
    }
}

/// (Re)validates a candidate transaction against a snapshot without
/// committing anything: the transaction pool's admission query.
pub fn validate_transaction(
    cfg: &RuntimeConfig,
    s: &ChainState,
    source: TransactionSource,
    xt: &Extrinsic,
) -> (r: Result<ValidTransaction, TransactionValidityError>)
    requires
        s@.wf(),
        s@.block_hashes.len() <= 0xffff_ffff,
    ensures
        r == spec_validate_transaction(*cfg, s@, source, *xt),
{
    proof {
        lemma_encoded_len_small(*xt);
    }
    let len = encoded_len(xt);
    match xt {
        Extrinsic::Signed { who, signature: _, call, extra } => validate_signed(
            cfg,
            s,
            *who,
            call,
            extra,
            len,
            ValidityMode::Pool { source },
        ),
        Extrinsic::Inherent { .. } => Err(TransactionValidityError::BadMandatory),
    }
}

/// Version staleness is permanent and source-blind: a signed extrinsic built
/// under a spec version older than the runtime's is judged stale by the pool
/// query, whatever source submitted it.
pub proof fn lemma_stale_version_rejected(
    cfg: RuntimeConfig,
    s: StateModel,
    source: TransactionSource,
    xt: Extrinsic,
)
    requires
        xt matches Extrinsic::Signed { extra, .. } && extra.spec_version
            < cfg.version.spec_version,
    ensures
        spec_validate_transaction(cfg, s, source, xt) == Err::<
            ValidTransaction,
            TransactionValidityError,
        >(TransactionValidityError::Stale),
{
}

/// The number of blocks the snapshot holds; also the number of the block
/// being built on it.
pub fn block_count(s: &ChainState) -> (r: u32)
    requires
        s@.wf(),
        s@.block_hashes.len() <= 0xffff_ffff,
    ensures
        r == s@.block_hashes.len(),
{
    s.block_hashes.len() as u32
}

} // verus!
