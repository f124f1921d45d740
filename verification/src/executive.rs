//! The block execution pipeline: one instance per block, never reused. A
//! block is executed by initializing against the parent state, applying each
//! extrinsic in the author's order under the weight and length budgets, and
//! finalizing into the committed state and the closing header. Every step is
//! pinned to a mathematical model of the pipeline, so execution is a pure
//! function of the parent state and the block's contents.

use vstd::prelude::*;
use crate::block::{
    Block, BlockModel, Header, HeaderModel, header_eq, header_hash, mix64, mix64_step,
    spec_header_hash,
};
use crate::codec::{encoded_len, lemma_encoded_len_small, spec_encoded_len};
use crate::config::RuntimeConfig;
use crate::dispatch::spec_dispatch;
use crate::extrinsic::{Extrinsic, SignedExtra};
use crate::registry::{
    BalancesCall, Call, DispatchError, Event, ModuleId, Origin, PostDispatchInfo, SystemCall,
    TimestampCall, call_weight, declared_order, spec_call_weight,
};
use crate::state::{AccountInfo, ChainState, StateModel, account_of, spec_state_root, state_root};
use crate::validity::{
    TransactionValidityError, ValidityMode, spec_check_era, spec_validate_signed, validate_signed,
};
use crate::weights::{
    fits_block_length, fits_block_weight, spec_fits_block_length, spec_fits_block_weight,
};

verus! {

/// Why a whole block is rejected. All-or-nothing: a rejected block commits no
/// state at all.
#[derive(Clone, Copy, Debug, PartialEq, Eq, Structural)]
pub enum BlockError {
    /// The header does not build on the snapshot's best block.
    ParentMismatch,
    /// An included extrinsic failed its pre-dispatch validity check; the
    /// pipeline never skips a failing extrinsic.
    InvalidExtrinsic(TransactionValidityError),
    /// The locally computed closing header differs from the one the block
    /// carries.
    HeaderMismatch,
}

/// Where a block execution stands.
#[derive(Clone, Copy, Debug, PartialEq, Eq, Structural)]
pub enum Phase {
    /// Hooks have run; no extrinsic applied yet.
    Initialized,
    /// At least one extrinsic applied.
    Executing,
}

/// What an applied extrinsic reports: the outer error rejects the extrinsic
/// (and with it the block), the inner error is a module-level failure that
/// still consumed the extrinsic's weight and nonce.
pub type ApplyExtrinsicResult = Result<Result<(), DispatchError>, TransactionValidityError>;

/// One block's execution in flight: the working copy of the state and the
/// per-block scratch (budgets, event log, hook trace). Exclusively owned;
/// concurrent executions on other snapshots cannot observe it.
pub struct BlockExecution {
    pub phase: Phase,
    /// The working copy of the committed state.
    pub state: ChainState,
    /// The number of the block being executed.
    pub number: u32,
    /// The hash of the parent block.
    pub parent_hash: u64,
    /// The digest log carried over from the header.
    pub digest: Vec<u64>,
    /// Weight consumed so far, fixed overhead included.
    pub used_weight: u64,
    /// Encoded bytes consumed so far.
    pub used_length: u32,
    /// Whether the timestamp inherent has run in this block.
    pub timestamp_updated: bool,
    /// The per-block event log.
    pub events: Vec<Event>,
    /// The modules whose `on_initialize` hook has run, in running order.
    pub init_trace: Vec<ModuleId>,
}

/// The mathematical value of a block execution.
#[verifier::ext_equal]
pub struct ExecutionModel {
    pub state: StateModel,
    pub number: u32,
    pub parent_hash: u64,
    pub digest: Seq<u64>,
    pub used_weight: u64,
    pub used_length: u32,
    pub timestamp_updated: bool,
    pub events: Seq<Event>,
    pub init_trace: Seq<ModuleId>,
}

impl View for BlockExecution {
    type V = ExecutionModel;

    open spec fn view(&self) -> ExecutionModel {
        ExecutionModel {
            state: self.state@,
            number: self.number,
            parent_hash: self.parent_hash,
            digest: self.digest@,
            used_weight: self.used_weight,
            used_length: self.used_length,
            timestamp_updated: self.timestamp_updated,
            events: self.events@,
            init_trace: self.init_trace@,
        }
    }
}

/// The pipeline's invariant: the working state is usable, the block number
/// continues the chain, and the budgets are respected — in particular, the
/// weight consumed never exceeds the configured maximum block weight.
pub open spec fn spec_exec_wf(cfg: RuntimeConfig, ex: ExecutionModel) -> bool {
    &&& ex.state.wf()
    &&& ex.number == ex.state.block_hashes.len()
    &&& ex.used_weight <= cfg.limits.max_block_weight
    &&& ex.used_length <= cfg.limits.max_block_length
}

/// Initialization: records the header, resets the budgets to the block's
/// configured maxima (charging the fixed block-execution overhead), and runs
/// every module's `on_initialize` hook in declaration order. Rejects a header
/// that does not build on the snapshot's best block.
pub open spec fn spec_initialize(cfg: RuntimeConfig, s: StateModel, h: HeaderModel) -> Result<
    ExecutionModel,
    BlockError,
> {
    if h.number != s.block_hashes.len() || h.parent_hash != s.block_hashes.last() {
        Err(BlockError::ParentMismatch)
    } else {
        Ok(
            ExecutionModel {
                state: StateModel { randomness: mix64(s.randomness, h.parent_hash), ..s },
                number: h.number,
                parent_hash: h.parent_hash,
                digest: h.digest,
                used_weight: cfg.limits.block_execution_weight,
                used_length: 0,
                timestamp_updated: false,
                events: Seq::empty(),
                init_trace: declared_order(),
            },
        )
    }
}

/// Copies a digest log.
fn copy_words(v: &Vec<u64>) -> (r: Vec<u64>)
    ensures
        r@ == v@,
{
    let mut r: Vec<u64> = Vec::new();
    let mut i: usize = 0;
    while i < v.len()
        invariant
            i <= v.len(),
            r@ == v@.take(i as int),
        decreases v.len() - i,
    {
        r.push(v[i]);
        proof {
            assert(v@.take(i as int + 1) =~= v@.take(i as int).push(v@[i as int]));
        }
        i += 1;
    }
    proof {
        assert(v@.take(v@.len() as int) =~= v@);
    }
    r
}

/// Starts executing one block on a snapshot. Consumes the snapshot: the
/// execution owns its working copy and nothing else may observe it.
pub fn initialize_block(cfg: &RuntimeConfig, state: ChainState, header: &Header) -> (r: Result<
    BlockExecution,
    BlockError,
>)
    requires
        cfg.wf(),
        state@.wf(),
        state@.block_hashes.len() <= 0xffff_ffff,
    ensures
        match r {
            Ok(ex) => spec_initialize(*cfg, state@, header@) == Ok::<ExecutionModel, BlockError>(
                ex@,
            ) && spec_exec_wf(*cfg, ex@) && ex.phase is Initialized,
            Err(e) => spec_initialize(*cfg, state@, header@) == Err::<ExecutionModel, BlockError>(
                e,
            ),
        },
{
    let n = state.block_hashes.len();
    let parent = state.block_hashes[n - 1];
    if header.number as usize != n || header.parent_hash != parent {
        return Err(BlockError::ParentMismatch);
    }
    let digest = copy_words(&header.digest);
    let mut ex = BlockExecution {
        phase: Phase::Initialized,
        state,
        number: header.number,
        parent_hash: header.parent_hash,
        digest,
        used_weight: cfg.limits.block_execution_weight,
        used_length: 0,
        timestamp_updated: false,
        events: Vec::new(),
        init_trace: Vec::new(),
    };
    // `on_initialize`, module by module, in declaration order. Only the
    // randomness module has per-block work: it folds the parent hash into its
    // rolling seed.
    ex.init_trace.push(ModuleId::System);
    ex.init_trace.push(ModuleId::RandomnessSource);
    ex.state.randomness = mix64_step(ex.state.randomness, ex.parent_hash);
    ex.init_trace.push(ModuleId::Babe);
    ex.init_trace.push(ModuleId::Grandpa);
    ex.init_trace.push(ModuleId::Timestamp);
    ex.init_trace.push(ModuleId::Balances);
    ex.init_trace.push(ModuleId::Sudo);
    proof {
        assert(ex.init_trace@ =~= declared_order());
        assert(ex@ =~~= spec_initialize(*cfg, state@, header@)->Ok_0);
    }
    Ok(ex)
}

/// Runs one call against the execution's working state.
fn dispatch_call(cfg: &RuntimeConfig, ex: &mut BlockExecution, call: &Call, origin: Origin) -> (r:
    Result<PostDispatchInfo, DispatchError>)
    ensures
        ({
            let d = spec_dispatch(*cfg, *call, origin, old(ex)@.state, old(ex)@.timestamp_updated);
            match r {
                Ok(post) => d is Ok && final(ex)@.state == d->Ok_0.0 && final(ex)@.timestamp_updated
                    == d->Ok_0.1 && final(ex)@.events == old(ex)@.events + d->Ok_0.2
                    && post.actual_weight == d->Ok_0.3,
                Err(e) => d == Err::<(StateModel, bool, Seq<Event>, u64), DispatchError>(e)
                    && final(ex)@ == old(ex)@,
            }
        }),
        final(ex)@ == (ExecutionModel {
            state: final(ex)@.state,
            timestamp_updated: final(ex)@.timestamp_updated,
            events: final(ex)@.events,
            ..old(ex)@
        }),
        final(ex).phase == old(ex).phase,
{
    match call {
        Call::System(SystemCall::Remark { note }) => match origin {
            Origin::Signed(who) => {
                ex.events.push(Event::Remarked { who, note: *note });
                proof {
                    assert(ex@.events =~= old(ex)@.events + seq![
                        Event::Remarked { who, note: *note },
                    ]);
                    assert(ex@ =~~= (ExecutionModel { events: ex@.events, ..old(ex)@ }));
                }
                Ok(PostDispatchInfo { actual_weight: cfg.dispatch_weights.system_remark })
            },
            _ => Err(DispatchError::BadOrigin),
        },
        Call::Timestamp(TimestampCall::SetNow { now }) => match origin {
            Origin::Unsigned => {
                if ex.timestamp_updated {
                    return Err(DispatchError::DuplicateTimestamp);
                }
                let early = match ex.state.timestamp_now.checked_add(cfg.minimum_period) {
                    Some(min_next) => *now < min_next,
                    None => true,
                };
                if early {
                    return Err(DispatchError::StaleTimestamp);
                }
                ex.state.timestamp_now = *now;
                ex.timestamp_updated = true;
                ex.events.push(Event::TimestampSet { now: *now });
                proof {
                    assert(ex@.state =~~= (StateModel {
                        timestamp_now: *now,
                        ..old(ex)@.state
                    }));
                    assert(ex@.events =~= old(ex)@.events + seq![Event::TimestampSet { now: *now }]);
                    assert(ex@ =~~= (ExecutionModel {
                        state: ex@.state,
                        timestamp_updated: true,
                        events: ex@.events,
                        ..old(ex)@
                    }));
                }
                Ok(PostDispatchInfo { actual_weight: cfg.dispatch_weights.timestamp_set })
            },
            _ => Err(DispatchError::BadOrigin),
        },
        Call::Balances(BalancesCall::Transfer { dest, value }) => match origin {
            Origin::Signed(who) => {
                let from = ex.state.get_account(who);
                if *value > from.balance {
                    return Err(DispatchError::InsufficientBalance);
                }
                let debited = AccountInfo { nonce: from.nonce, balance: from.balance - *value };
                let to = if *dest == who {
                    debited
                } else {
                    ex.state.get_account(*dest)
                };
                proof {
                    let a1 = ex@.state.accounts.insert(0, (who, debited));
                    assert(a1.drop_first() =~= ex@.state.accounts);
                    assert(a1[0] == (who, debited));
                    assert(account_of(a1, *dest) == to);
                }
                let credited_balance = match to.balance.checked_add(*value) {
                    Some(b) => b,
                    None => {
                        return Err(DispatchError::BalanceOverflow);
                    },
                };
                ex.state.set_account(who, debited);
                proof {
                    assert(account_of(ex@.state.accounts, *dest) == to);
                }
                ex.state.set_account(*dest, AccountInfo { nonce: to.nonce, balance: credited_balance });
                ex.events.push(Event::Transfer { from: who, to: *dest, value: *value });
                proof {
                    assert(ex@.state =~~= (StateModel {
                        accounts: old(ex)@.state.accounts.insert(0, (who, debited)).insert(
                            0,
                            (*dest, AccountInfo { nonce: to.nonce, balance: credited_balance }),
                        ),
                        ..old(ex)@.state
                    }));
                    assert(ex@.events =~= old(ex)@.events + seq![
                        Event::Transfer { from: who, to: *dest, value: *value },
                    ]);
                    assert(ex@ =~~= (ExecutionModel {
                        state: ex@.state,
                        events: ex@.events,
                        ..old(ex)@
                    }));
                }
                Ok(PostDispatchInfo { actual_weight: cfg.dispatch_weights.balances_transfer })
            },
            _ => Err(DispatchError::BadOrigin),
        },
    }
}

/// Application of one extrinsic to an execution in flight. A signed extrinsic
/// passes the validity chain against the running budgets, advances its
/// account's nonce, and dispatches; a module-level failure keeps the nonce
/// advance and the full declared weight but no module effects. An inherent
/// dispatches under the unsigned origin, budget permitting; a failing
/// inherent rejects the block. Consumed weight is the reported actual cost,
/// capped at the declared estimate, plus the fixed base weight.
pub open spec fn spec_apply_extrinsic(cfg: RuntimeConfig, ex: ExecutionModel, xt: Extrinsic) -> (
    ExecutionModel,
    ApplyExtrinsicResult,
) {
    let len = spec_encoded_len(xt) as u32;
    match xt {
        Extrinsic::Signed { who, signature, call, extra } => {
            let w = spec_call_weight(cfg.dispatch_weights, call);
            match spec_validate_signed(
                cfg,
                ex.state,
                who,
                call,
                extra,
                len,
                ValidityMode::InBlock { used_weight: ex.used_weight, used_length: ex.used_length },
            ) {
                Err(e) => (ex, Err(e)),
                Ok(_) => {
                    let acct = account_of(ex.state.accounts, who);
                    let bumped = AccountInfo {
                        nonce: (acct.nonce + 1) as u32,
                        balance: acct.balance,
                    };
                    let s1 = StateModel {
                        accounts: ex.state.accounts.insert(0, (who, bumped)),
                        ..ex.state
                    };
                    match spec_dispatch(cfg, call, Origin::Signed(who), s1, ex.timestamp_updated) {
                        Ok((s2, ts2, ev, actual)) => {
                            let charged = if actual < w {
                                actual
                            } else {
                                w
                            };
                            (
                                ExecutionModel {
                                    state: s2,
                                    timestamp_updated: ts2,
                                    events: ex.events + ev,
                                    used_weight: (ex.used_weight + cfg.limits.extrinsic_base_weight
                                        + charged) as u64,
                                    used_length: (ex.used_length + len) as u32,
                                    ..ex
                                },
                                Ok(Ok(())),
                            )
                        },
                        Err(d) => (
                            ExecutionModel {
                                state: s1,
                                used_weight: (ex.used_weight + cfg.limits.extrinsic_base_weight
                                    + w) as u64,
                                used_length: (ex.used_length + len) as u32,
                                ..ex
                            },
                            Ok(Err(d)),
                        ),
                    }
                },
            }
        },
        Extrinsic::Inherent { call } => {
            let w = spec_call_weight(cfg.dispatch_weights, call);
            if !spec_fits_block_weight(cfg.limits, ex.used_weight, w) || !spec_fits_block_length(
                cfg.limits,
                ex.used_length,
                len,
            ) {
                (ex, Err(TransactionValidityError::ExhaustsResources))
            } else {
                match spec_dispatch(cfg, call, Origin::Unsigned, ex.state, ex.timestamp_updated) {
                    Ok((s2, ts2, ev, actual)) => {
                        let charged = if actual < w {
                            actual
                        } else {
                            w
                        };
                        (
                            ExecutionModel {
                                state: s2,
                                timestamp_updated: ts2,
                                events: ex.events + ev,
                                used_weight: (ex.used_weight + cfg.limits.extrinsic_base_weight
                                    + charged) as u64,
                                used_length: (ex.used_length + len) as u32,
                                ..ex
                            },
                            Ok(Ok(())),
                        )
                    },
                    Err(_) => (ex, Err(TransactionValidityError::BadMandatory)),
                }
            }
        },
    }
}

impl BlockExecution {
    /// Applies one extrinsic, in the author's order, to this execution.
    pub fn apply_extrinsic(&mut self, cfg: &RuntimeConfig, xt: &Extrinsic) -> (r:
        ApplyExtrinsicResult)
        requires
            cfg.wf(),
            spec_exec_wf(*cfg, old(self)@),
        ensures
            final(self)@ == spec_apply_extrinsic(*cfg, old(self)@, *xt).0,
            r == spec_apply_extrinsic(*cfg, old(self)@, *xt).1,
            spec_exec_wf(*cfg, final(self)@),
            r is Ok ==> final(self).phase is Executing,
            r is Err ==> final(self)@ == old(self)@,
    {
        proof {
            lemma_encoded_len_small(*xt);
        }
        let len = encoded_len(xt);
        match xt {
            Extrinsic::Signed { who, signature: _, call, extra } => {
                let w = call_weight(&cfg.dispatch_weights, call);
                match validate_signed(
                    cfg,
                    &self.state,
                    *who,
                    call,
                    extra,
                    len,
                    ValidityMode::InBlock {
                        used_weight: self.used_weight,
                        used_length: self.used_length,
                    },
                ) {
                    Err(e) => Err(e),
                    Ok(_valid) => {
                        let acct = self.state.get_account(*who);
                        self.state.set_account(
                            *who,
                            AccountInfo { nonce: acct.nonce + 1, balance: acct.balance },
                        );
                        let base = cfg.limits.extrinsic_base_weight;
                        match dispatch_call(cfg, self, call, Origin::Signed(*who)) {
                            Ok(post) => {
                                let charged = if post.actual_weight < w {
                                    post.actual_weight
                                } else {
                                    w
                                };
                                self.used_weight = self.used_weight + base + charged;
                                self.used_length = self.used_length + len;
                                self.phase = Phase::Executing;
                                proof {
                                    assert(self@ =~~= spec_apply_extrinsic(*cfg, old(self)@, *xt).0);
                                }
                                Ok(Ok(()))
                            },
                            Err(d) => {
                                self.used_weight = self.used_weight + base + w;
                                self.used_length = self.used_length + len;
                                self.phase = Phase::Executing;
                                proof {
                                    assert(self@ =~~= spec_apply_extrinsic(*cfg, old(self)@, *xt).0);
                                }
                                Ok(Err(d))
                            },
                        }
                    },
                }
            },
            Extrinsic::Inherent { call } => {
                let w = call_weight(&cfg.dispatch_weights, call);
                if !fits_block_weight(&cfg.limits, self.used_weight, w) || !fits_block_length(
                    &cfg.limits,
                    self.used_length,
                    len,
                ) {
                    return Err(TransactionValidityError::ExhaustsResources);
                }
                let base = cfg.limits.extrinsic_base_weight;
                match dispatch_call(cfg, self, call, Origin::Unsigned) {
                    Ok(post) => {
                        let charged = if post.actual_weight < w {
                            post.actual_weight
                        } else {
                            w
                        };
                        self.used_weight = self.used_weight + base + charged;
                        self.used_length = self.used_length + len;
                        self.phase = Phase::Executing;
                        proof {
                            assert(self@ =~~= spec_apply_extrinsic(*cfg, old(self)@, *xt).0);
                        }
                        Ok(Ok(()))
                    },
                    Err(_d) => Err(TransactionValidityError::BadMandatory),
                }
            },
        }
    }
}

/// Finalization: every module's `on_finalize` hook runs in exactly the
/// reverse of declaration order, then the closing header is built around the
/// state-root digest of the worked state, and the new block's hash is
/// committed to the chain of hashes.
pub open spec fn spec_finalize(ex: ExecutionModel) -> (StateModel, HeaderModel, Seq<ModuleId>) {
    let header = HeaderModel {
        number: ex.number,
        parent_hash: ex.parent_hash,
        state_root: spec_state_root(ex.state),
        digest: ex.digest,
    };
    let committed = StateModel {
        block_hashes: ex.state.block_hashes.push(spec_header_hash(header)),
        ..ex.state
    };
    (committed, header, declared_order().reverse())
}

/// A finalized block: the state to commit, the closing header, the event log
/// of the block, and the modules whose `on_finalize` hook ran, in running
/// order.
pub struct FinalizedBlock {
    pub state: ChainState,
    pub header: Header,
    pub events: Vec<Event>,
    pub finalize_trace: Vec<ModuleId>,
}

impl BlockExecution {
    /// Closes this execution: runs the `on_finalize` hooks in reverse
    /// declaration order and yields the committed state with its header.
    pub fn finalize_block(self) -> (r: FinalizedBlock)
        requires
            self@.state.wf(),
        ensures
            r.state@ == spec_finalize(self@).0,
            r.header@ == spec_finalize(self@).1,
            r.finalize_trace@ == spec_finalize(self@).2,
            r.finalize_trace@ == declared_order().reverse(),
            r.events@ == self@.events,
            r.state@.wf(),
    {
        // `on_finalize`, module by module, in exactly the reverse of the
        // declaration order; all hooks here are bookkeeping-only.
        let mut finalize_trace: Vec<ModuleId> = Vec::new();
        finalize_trace.push(ModuleId::Sudo);
        finalize_trace.push(ModuleId::Balances);
        finalize_trace.push(ModuleId::Timestamp);
        finalize_trace.push(ModuleId::Grandpa);
        finalize_trace.push(ModuleId::Babe);
        finalize_trace.push(ModuleId::RandomnessSource);
        finalize_trace.push(ModuleId::System);
        proof {
            assert(finalize_trace@ =~= declared_order().reverse());
        }
        let BlockExecution { state, number, parent_hash, digest, events, .. } = self;
        let root = state_root(&state);
        let header = Header { number, parent_hash, state_root: root, digest };
        let block_hash = header_hash(&header);
        let mut state = state;
        state.block_hashes.push(block_hash);
        proof {
            assert(state@ =~~= spec_finalize(self@).0);
            assert(header@ =~~= spec_finalize(self@).1);
        }
        FinalizedBlock { state, header, events, finalize_trace }
    }
}

/// Application of a whole sequence of extrinsics, in order; the first
/// extrinsic the validity chain rejects fails the sequence. Module-level
/// dispatch failures do not: those extrinsics still count as applied.
pub open spec fn spec_apply_all(
    cfg: RuntimeConfig,
    ex: ExecutionModel,
    xts: Seq<Extrinsic>,
) -> Result<ExecutionModel, TransactionValidityError>
    decreases xts.len(),
{
    if xts.len() == 0 {
        Ok(ex)
    } else {
        let (ex1, r) = spec_apply_extrinsic(cfg, ex, xts[0]);
        match r {
            Err(e) => Err(e),
            Ok(_) => spec_apply_all(cfg, ex1, xts.drop_first()),
        }
    }
}

/// Execution of a whole block against a parent state: initialize, apply every
/// extrinsic in the author's order, finalize, and demand that the locally
/// computed closing header is identical to the one the block carries. A pure
/// function of the parent state and the block: every node computes the same
/// committed state and header.
pub open spec fn spec_execute_block(cfg: RuntimeConfig, s: StateModel, b: BlockModel) -> Result<
    (StateModel, HeaderModel),
    BlockError,
> {
    match spec_initialize(cfg, s, b.header) {
        Err(e) => Err(e),
        Ok(ex0) => match spec_apply_all(cfg, ex0, b.extrinsics) {
            Err(e) => Err(BlockError::InvalidExtrinsic(e)),
            Ok(ex1) => {
                let (committed, header, _) = spec_finalize(ex1);
                if header == b.header {
                    Ok((committed, header))
                } else {
                    Err(BlockError::HeaderMismatch)
                }
            },
        },
    }
}

/// Executes a block against a snapshot: the convenience composition of
/// initialize, apply-each and finalize, rejecting the block unless the
/// computed header matches the block's own.
pub fn execute_block(cfg: &RuntimeConfig, state: ChainState, block: &Block) -> (r: Result<
    FinalizedBlock,
    BlockError,
>)
    requires
        cfg.wf(),
        state@.wf(),
        state@.block_hashes.len() <= 0xffff_ffff,
    ensures
        match r {
            Ok(fin) => spec_execute_block(*cfg, state@, block@) == Ok::<
                (StateModel, HeaderModel),
                BlockError,
            >((fin.state@, fin.header@)) && fin.state@.wf(),
            Err(e) => spec_execute_block(*cfg, state@, block@) == Err::<
                (StateModel, HeaderModel),
                BlockError,
            >(e),
        },
{
    let mut ex = match initialize_block(cfg, state, &block.header) {
        Ok(ex) => ex,
        Err(e) => {
            return Err(e);
        },
    };
    let ghost ex0 = ex@;
    let n = block.extrinsics.len();
    let mut i: usize = 0;
    proof {
        assert(block.extrinsics@.skip(0) =~= block.extrinsics@);
    }
    while i < n
        invariant
            cfg.wf(),
            i <= n,
            n == block.extrinsics.len(),
            spec_exec_wf(*cfg, ex@),
            ex@.state.wf(),
            spec_initialize(*cfg, state@, block@.header) == Ok::<ExecutionModel, BlockError>(ex0),
            spec_apply_all(*cfg, ex@, block.extrinsics@.skip(i as int)) == spec_apply_all(
                *cfg,
                ex0,
                block.extrinsics@,
            ),
        decreases n - i,
    {
        let xt = block.extrinsics[i];
        let ghost before = ex@;
        match ex.apply_extrinsic(cfg, &xt) {
            Ok(_) => {},
            Err(e) => {
                proof {
                    assert(block.extrinsics@.skip(i as int)[0] == block.extrinsics@[i as int]);
                    assert(spec_apply_all(*cfg, ex@, block.extrinsics@.skip(i as int)) == Err::<
                        ExecutionModel,
                        TransactionValidityError,
                    >(e));
                    assert(spec_apply_all(*cfg, ex0, block@.extrinsics) == Err::<
                        ExecutionModel,
                        TransactionValidityError,
                    >(e));
                    assert(spec_initialize(*cfg, state@, block@.header) == Ok::<
                        ExecutionModel,
                        BlockError,
                    >(ex0));
                    assert(spec_execute_block(*cfg, state@, block@) == Err::<
                        (StateModel, HeaderModel),
                        BlockError,
                    >(BlockError::InvalidExtrinsic(e)));
                }
                return Err(BlockError::InvalidExtrinsic(e));
            },
        }
        proof {
            assert(block.extrinsics@.skip(i as int)[0] == block.extrinsics@[i as int]);
            assert(block.extrinsics@.skip(i as int).drop_first() =~= block.extrinsics@.skip(
                i as int + 1,
            ));
        }
        i += 1;
    }
    proof {
        assert(block.extrinsics@.skip(n as int) =~= Seq::<Extrinsic>::empty());
    }
    let fin = ex.finalize_block();
    if header_eq(&fin.header, &block.header) {
        Ok(fin)
    } else {
        Err(BlockError::HeaderMismatch)
    }
}

/// Determinism: block execution is a function of the parent state and the
/// block alone, so re-executing a block against the same parent state yields
/// the identical committed state and the identical header, state root
/// included.
pub proof fn lemma_execute_block_deterministic(
    cfg: RuntimeConfig,
    s1: StateModel,
    s2: StateModel,
    b1: BlockModel,
    b2: BlockModel,
)
    requires
        s1 == s2,
        b1 == b2,
    ensures
        spec_execute_block(cfg, s1, b1) == spec_execute_block(cfg, s2, b2),
{
}

/// Budget safety: applying an extrinsic keeps the pipeline's invariant, so
/// the weight consumed by a block — every extrinsic plus the fixed block and
/// per-extrinsic overheads — never exceeds the configured maximum block
/// weight.
pub proof fn lemma_apply_respects_budgets(cfg: RuntimeConfig, ex: ExecutionModel, xt: Extrinsic)
    requires
        cfg.wf(),
        spec_exec_wf(cfg, ex),
    ensures
        spec_exec_wf(cfg, spec_apply_extrinsic(cfg, ex, xt).0),
        spec_apply_extrinsic(cfg, ex, xt).0.used_weight <= cfg.limits.max_block_weight,
{
    lemma_encoded_len_small(xt);
}

/// Budget safety over a whole block: from any execution within budget,
/// applying any sequence of extrinsics that the pipeline accepts ends within
/// budget — the weight of all extrinsics of a block, fixed overheads
/// included, never exceeds the configured maximum block weight.
pub proof fn lemma_block_respects_budgets(
    cfg: RuntimeConfig,
    ex: ExecutionModel,
    xts: Seq<Extrinsic>,
)
    requires
        cfg.wf(),
        spec_exec_wf(cfg, ex),
    ensures
        spec_apply_all(cfg, ex, xts) matches Ok(done) ==> done.used_weight
            <= cfg.limits.max_block_weight,
    decreases xts.len(),
{
    if xts.len() > 0 {
        lemma_apply_respects_budgets(cfg, ex, xts[0]);
        let (ex1, r) = spec_apply_extrinsic(cfg, ex, xts[0]);
        if r is Ok {
            lemma_block_respects_budgets(cfg, ex1, xts.drop_first());
        }
    }
}

/// Hook ordering: initialization runs the modules' `on_initialize` hooks in
/// exactly the declaration order, and finalization runs the `on_finalize`
/// hooks in exactly the reverse of it.
pub proof fn lemma_hooks_ordered(
    cfg: RuntimeConfig,
    s: StateModel,
    h: HeaderModel,
    ex: ExecutionModel,
)
    ensures
        spec_initialize(cfg, s, h) matches Ok(started) ==> started.init_trace == declared_order(),
        spec_finalize(ex).2 == declared_order().reverse(),
        forall|i: int| 0 <= i < declared_order().len() ==> declared_order().reverse()[i]
            == declared_order()[declared_order().len() - 1 - i],
{
}

/// Nonce sequencing: with every other check passing, applying a signed
/// extrinsic that carries exactly the account's committed nonce is accepted
/// (its module-level dispatch may still fail gracefully) and leaves the
/// committed nonce one higher; a nonce below that is permanently stale; a
/// nonce above it is not yet valid.
pub proof fn lemma_nonce_rules(
    cfg: RuntimeConfig,
    ex: ExecutionModel,
    who: u64,
    signature: u64,
    call: Call,
    extra: SignedExtra,
)
    requires
        cfg.wf(),
        spec_exec_wf(cfg, ex),
        extra.spec_version == cfg.version.spec_version,
        extra.transaction_version == cfg.version.transaction_version,
        extra.genesis_hash == ex.state.genesis_hash,
        spec_check_era(
            ex.state,
            ex.state.block_hashes.len() as int,
            extra.era,
            extra.checkpoint_hash,
        ) is None,
        extra.nonce < u32::MAX,
        spec_fits_block_weight(
            cfg.limits,
            ex.used_weight,
            spec_call_weight(cfg.dispatch_weights, call),
        ),
        spec_fits_block_length(
            cfg.limits,
            ex.used_length,
            spec_encoded_len(Extrinsic::Signed { who, signature, call, extra }) as u32,
        ),
    ensures
        ({
            let xt = Extrinsic::Signed { who, signature, call, extra };
            let expected = account_of(ex.state.accounts, who).nonce;
            let stepped = spec_apply_extrinsic(cfg, ex, xt);
            &&& (extra.nonce == expected ==> stepped.1 is Ok && account_of(
                stepped.0.state.accounts,
                who,
            ).nonce == expected + 1)
            &&& (extra.nonce < expected ==> stepped.1 == Err::<
                Result<(), DispatchError>,
                TransactionValidityError,
            >(TransactionValidityError::Stale))
            &&& (extra.nonce > expected ==> stepped.1 == Err::<
                Result<(), DispatchError>,
                TransactionValidityError,
            >(TransactionValidityError::Future))
        }),
{
    let xt = Extrinsic::Signed { who, signature, call, extra };
    lemma_encoded_len_small(xt);
    let expected = account_of(ex.state.accounts, who).nonce;
    if extra.nonce == expected {
        let bumped = AccountInfo {
            nonce: (expected + 1) as u32,
            balance: account_of(ex.state.accounts, who).balance,
        };
        let a1 = ex.state.accounts.insert(0, (who, bumped));
        assert(a1.drop_first() =~= ex.state.accounts);
        assert(account_of(a1, who) == bumped);
        let s1 = StateModel { accounts: a1, ..ex.state };
        match spec_dispatch(cfg, call, Origin::Signed(who), s1, ex.timestamp_updated) {
            Ok(_) => {
                match call {
                    Call::Balances(BalancesCall::Transfer { dest, value }) => {
                        let from = account_of(a1, who);
                        let debited = AccountInfo {
                            nonce: from.nonce,
                            balance: (from.balance - value) as u64,
                        };
                        let a2 = a1.insert(0, (who, debited));
                        assert(a2.drop_first() =~= a1);
                        assert(account_of(a2, who) == debited);
                        let to = account_of(a2, dest);
                        let credited = AccountInfo {
                            nonce: to.nonce,
                            balance: (to.balance + value) as u64,
                        };
                        let a3 = a2.insert(0, (dest, credited));
                        assert(a3.drop_first() =~= a2);
                        if dest == who {
                            assert(account_of(a3, who) == credited);
                        } else {
                            assert(account_of(a3, who) == account_of(a2, who));
                        }
                    },
                    _ => {},
                }
            },
            Err(_) => {},
        }
    }
}

} // verus!
