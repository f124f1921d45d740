//! What dispatching one call means: the single place where the aggregated
//! call space meets the modules. A call mutates exactly the invoked module's
//! state and appends that module's events; a failing call mutates nothing.

use vstd::prelude::*;
use crate::config::RuntimeConfig;
use crate::registry::{
    BalancesCall, Call, DispatchError, Event, Origin, SystemCall, TimestampCall,
};
use crate::state::{AccountInfo, StateModel, account_of};

verus! {

/// What dispatch yields: the state afterwards, whether the timestamp was set
/// in this block afterwards, the events emitted, and the weight actually
/// consumed — or the error, with nothing changed.
pub type DispatchOutcome = Result<(StateModel, bool, Seq<Event>, u64), DispatchError>;

/// Dispatches a call against a state: routes it to its module's action and
/// yields that action's whole effect. Origin filters: a remark or a transfer
/// needs a signed origin, setting the timestamp is reserved to the unsigned
/// (inherent) origin. The timestamp must be set at most once per block and
/// must advance by the configured minimum period. A transfer moves value when
/// the sender can afford it and the destination's balance cannot overflow.
pub open spec fn spec_dispatch(
    cfg: RuntimeConfig,
    call: Call,
    origin: Origin,
    s: StateModel,
    ts_updated: bool,
) -> DispatchOutcome {
    match call {
        Call::System(SystemCall::Remark { note }) => match origin {
            Origin::Signed(who) => Ok(
                (s, ts_updated, seq![Event::Remarked { who, note }], cfg.dispatch_weights.system_remark),
            ),
            _ => Err(DispatchError::BadOrigin),
        },
        Call::Timestamp(TimestampCall::SetNow { now }) => match origin {
            Origin::Unsigned => if ts_updated {
                Err(DispatchError::DuplicateTimestamp)
            } else if now < s.timestamp_now + cfg.minimum_period {
                Err(DispatchError::StaleTimestamp)
            } else {
                Ok(
                    (
                        StateModel { timestamp_now: now, ..s },
                        true,
                        seq![Event::TimestampSet { now }],
                        cfg.dispatch_weights.timestamp_set,
                    ),
                )
            },
            _ => Err(DispatchError::BadOrigin),
        },
        Call::Balances(BalancesCall::Transfer { dest, value }) => match origin {
            Origin::Signed(who) => {
                let from = account_of(s.accounts, who);
                if value > from.balance {
                    Err(DispatchError::InsufficientBalance)
                } else {
                    let debited = AccountInfo {
                        nonce: from.nonce,
                        balance: (from.balance - value) as u64,
                    };
                    let a1 = s.accounts.insert(0, (who, debited));
                    let to = account_of(a1, dest);
                    if to.balance + value > u64::MAX {
                        Err(DispatchError::BalanceOverflow)
                    } else {
                        let credited = AccountInfo {
                            nonce: to.nonce,
                            balance: (to.balance + value) as u64,
                        };
                        Ok(
                            (
                                StateModel { accounts: a1.insert(0, (dest, credited)), ..s },
                                ts_updated,
                                seq![Event::Transfer { from: who, to: dest, value }],
                                cfg.dispatch_weights.balances_transfer,
                            ),
                        )
                    }
                }
            },
            _ => Err(DispatchError::BadOrigin),
        },
    }
}

} // verus!
