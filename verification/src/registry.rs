//! The module registry: the fixed, ordered list of state-transition modules
//! composed into this runtime, the aggregated call and event spaces, and the
//! declared weight cost of every dispatchable action.

use vstd::prelude::*;

verus! {

/// One composed module of the runtime.
#[derive(Clone, Copy, Debug, PartialEq, Eq, Structural)]
pub enum ModuleId {
    /// Bookkeeping of accounts, block hashes and budgets.
    System,
    /// Rolling randomness collected from recent block hashes.
    RandomnessSource,
    /// Slot-based block-production parameters (epochs, authorities).
    Babe,
    /// Finality-voting authority set.
    Grandpa,
    /// The per-block timestamp inherent.
    Timestamp,
    /// Account balances and transfers.
    Balances,
    /// Privileged (root-origin) administration.
    Sudo,
}

/// The declaration order of the composed modules. `on_initialize` hooks run in
/// this order at block start; `on_finalize` hooks run in exactly the reverse
/// order at block end. Modules may rely on this ordering.
pub open spec fn declared_order() -> Seq<ModuleId> {
    seq![
        ModuleId::System,
        ModuleId::RandomnessSource,
        ModuleId::Babe,
        ModuleId::Grandpa,
        ModuleId::Timestamp,
        ModuleId::Balances,
        ModuleId::Sudo,
    ]
}

/// Builds the declaration-order list of modules.
pub fn declared_order_modules() -> (r: Vec<ModuleId>)
    ensures
        r@ == declared_order(),
{
    let r: Vec<ModuleId> = vec![
        ModuleId::System,
        ModuleId::RandomnessSource,
        ModuleId::Babe,
        ModuleId::Grandpa,
        ModuleId::Timestamp,
        ModuleId::Balances,
        ModuleId::Sudo,
    ];
    proof {
        assert(r@ =~= declared_order());
    }
    r
}

/// An account identifier.
pub type AccountId = u64;

/// An account balance.
pub type Balance = u64;

/// An action of the system module.
#[derive(Clone, Copy, Debug, PartialEq, Eq, Structural)]
pub enum SystemCall {
    /// Record an opaque note on chain; no state effect.
    Remark { note: u64 },
}

/// An action of the timestamp module.
#[derive(Clone, Copy, Debug, PartialEq, Eq, Structural)]
pub enum TimestampCall {
    /// Set the block timestamp; the per-block inherent.
    SetNow { now: u64 },
}

/// An action of the balances module.
#[derive(Clone, Copy, Debug, PartialEq, Eq, Structural)]
pub enum BalancesCall {
    /// Move `value` from the signing account to `dest`.
    Transfer { dest: AccountId, value: Balance },
}

/// The aggregated call space: one tagged union over every module's actions.
/// A call identifies exactly one module and one action with its arguments.
#[derive(Clone, Copy, Debug, PartialEq, Eq, Structural)]
pub enum Call {
    System(SystemCall),
    Timestamp(TimestampCall),
    Balances(BalancesCall),
}

/// The aggregated event space, appended to the per-block event log.
#[derive(Clone, Copy, Debug, PartialEq, Eq, Structural)]
pub enum Event {
    /// A transfer was carried out.
    Transfer { from: AccountId, to: AccountId, value: Balance },
    /// A note was recorded.
    Remarked { who: AccountId, note: u64 },
    /// The block timestamp was set.
    TimestampSet { now: u64 },
}

/// The provenance a call is dispatched under.
#[derive(Clone, Copy, Debug, PartialEq, Eq, Structural)]
pub enum Origin {
    /// The privileged origin.
    Root,
    /// A transaction signed by the given account.
    Signed(AccountId),
    /// No signature: an inherent placed by the block author.
    Unsigned,
}

/// Why a dispatched call failed. A failed dispatch still consumes the
/// extrinsic's weight and nonce; only the module's own effects are dropped.
#[derive(Clone, Copy, Debug, PartialEq, Eq, Structural)]
pub enum DispatchError {
    /// The origin does not satisfy the action's origin filter.
    BadOrigin,
    /// The sender cannot afford the transfer.
    InsufficientBalance,
    /// The destination's balance cannot take the transfer.
    BalanceOverflow,
    /// The timestamp does not advance by the minimum period.
    StaleTimestamp,
    /// The timestamp was already set in this block.
    DuplicateTimestamp,
}

/// What a successful dispatch reports back: the weight it actually consumed,
/// which may be cheaper than the declared estimate.
#[derive(Clone, Copy, Debug, PartialEq, Eq, Structural)]
pub struct PostDispatchInfo {
    pub actual_weight: u64,
}

/// The declared weight cost of each dispatchable action, fixed at composition
/// time as part of the module registry.
#[derive(Clone, Copy, Debug, PartialEq, Eq, Structural)]
pub struct DispatchWeights {
    pub system_remark: u64,
    pub timestamp_set: u64,
    pub balances_transfer: u64,
}

/// What external tooling can learn about one composed module without
/// executing it: its identity and how many dispatchable actions it declares.
#[derive(Clone, Copy, Debug, PartialEq, Eq, Structural)]
pub struct ModuleMetadata {
    pub id: ModuleId,
    pub call_count: u32,
}

/// The composition's metadata: one record per module, in declaration order.
pub open spec fn spec_runtime_metadata() -> Seq<ModuleMetadata> {
    seq![
        ModuleMetadata { id: ModuleId::System, call_count: 1 },
        ModuleMetadata { id: ModuleId::RandomnessSource, call_count: 0 },
        ModuleMetadata { id: ModuleId::Babe, call_count: 0 },
        ModuleMetadata { id: ModuleId::Grandpa, call_count: 0 },
        ModuleMetadata { id: ModuleId::Timestamp, call_count: 1 },
        ModuleMetadata { id: ModuleId::Balances, call_count: 1 },
        ModuleMetadata { id: ModuleId::Sudo, call_count: 0 },
    ]
}

/// Describes the composition to external tooling: every module in
/// declaration order, without executing any of them.
pub fn runtime_metadata() -> (r: Vec<ModuleMetadata>)
    ensures
        r@ == spec_runtime_metadata(),
        r@.len() == declared_order().len(),
        forall|i: int| 0 <= i < r@.len() ==> r@[i].id == declared_order()[i],
{
    let r: Vec<ModuleMetadata> = vec![
        ModuleMetadata { id: ModuleId::System, call_count: 1 },
        ModuleMetadata { id: ModuleId::RandomnessSource, call_count: 0 },
        ModuleMetadata { id: ModuleId::Babe, call_count: 0 },
        ModuleMetadata { id: ModuleId::Grandpa, call_count: 0 },
        ModuleMetadata { id: ModuleId::Timestamp, call_count: 1 },
        ModuleMetadata { id: ModuleId::Balances, call_count: 1 },
        ModuleMetadata { id: ModuleId::Sudo, call_count: 0 },
    ];
    proof {
        assert(r@ =~= spec_runtime_metadata());
    }
    r
}

/// The declared (pre-dispatch) weight of a call.
pub open spec fn spec_call_weight(w: DispatchWeights, call: Call) -> u64 {
    match call {
        Call::System(SystemCall::Remark { .. }) => w.system_remark,
        Call::Timestamp(TimestampCall::SetNow { .. }) => w.timestamp_set,
        Call::Balances(BalancesCall::Transfer { .. }) => w.balances_transfer,
    }
}

/// Looks up the declared weight of a call in the registry.
pub fn call_weight(w: &DispatchWeights, call: &Call) -> (r: u64)
    ensures
        r == spec_call_weight(*w, *call),
{
    match call {
        Call::System(SystemCall::Remark { .. }) => w.system_remark,
        Call::Timestamp(TimestampCall::SetNow { .. }) => w.timestamp_set,
        Call::Balances(BalancesCall::Transfer { .. }) => w.balances_transfer,
    }
}

} // verus!
