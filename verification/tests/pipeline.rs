use runtime_core::block::{Block, Header};
use runtime_core::config::{RuntimeConfig, RuntimeVersion};
use runtime_core::executive::{initialize_block, execute_block, BlockError, Phase};
use runtime_core::extrinsic::{Era, Extrinsic, SignedExtra};
use runtime_core::registry::{
    BalancesCall, Call, DispatchError, DispatchWeights, Event, ModuleId, SystemCall, TimestampCall,
};
use runtime_core::state::{AccountInfo, BabeState, ChainState, GrandpaState};
use runtime_core::validity::TransactionValidityError;
use runtime_core::weights::WeightLimits;

const GENESIS_HASH: u64 = 7;
const ALICE: u64 = 1;
const BOB: u64 = 2;

fn test_config() -> RuntimeConfig {
    RuntimeConfig {
        version: RuntimeVersion {
            spec_name: "polkadot".to_string(),
            impl_name: "host-tester".to_string(),
            authoring_version: 2,
            spec_version: 1,
            impl_version: 1,
            transaction_version: 1,
        },
        limits: WeightLimits {
            max_block_weight: 2_000_000_000,
            max_extrinsic_weight: 1_300_000_000,
            max_block_length: 5 * 1024 * 1024,
            extrinsic_base_weight: 100_000_000,
            block_execution_weight: 0,
        },
        dispatch_weights: DispatchWeights {
            system_remark: 10_000_000,
            timestamp_set: 10_000_000,
            balances_transfer: 900_000_000,
        },
        minimum_period: 3000,
        timestamp_tolerance: 30_000,
        slot_duration: 6000,
        epoch_duration: 14400,
        c_numerator: 1,
        c_denominator: 4,
    }
}

fn genesis_state() -> ChainState {
    ChainState::genesis(
        GENESIS_HASH,
        vec![
            (ALICE, AccountInfo { nonce: 0, balance: 1_000_000 }),
            (BOB, AccountInfo { nonce: 0, balance: 500 }),
        ],
        BabeState {
            authorities: vec![(11, 1), (12, 1), (13, 1), (14, 1)],
            genesis_slot: 1000,
            epoch_index: 0,
        },
        GrandpaState { authorities: vec![(21, 1), (22, 1), (23, 1), (24, 1)], set_id: 0 },
    )
}

fn authoring_header() -> Header {
    Header { number: 1, parent_hash: GENESIS_HASH, state_root: 0, digest: vec![] }
}

fn extra_with_nonce(nonce: u32) -> SignedExtra {
    SignedExtra {
        spec_version: 1,
        transaction_version: 1,
        genesis_hash: GENESIS_HASH,
        era: Era::Immortal,
        checkpoint_hash: GENESIS_HASH,
        nonce,
    }
}

fn transfer(nonce: u32, value: u64) -> Extrinsic {
    Extrinsic::Signed {
        who: ALICE,
        signature: 0xabcd,
        call: Call::Balances(BalancesCall::Transfer { dest: BOB, value }),
        extra: extra_with_nonce(nonce),
    }
}

fn timestamp_inherent(now: u64) -> Extrinsic {
    Extrinsic::Inherent { call: Call::Timestamp(TimestampCall::SetNow { now }) }
}

#[test]
fn initialize_rejects_wrong_parent() {
    let cfg = test_config();
    let header = Header { number: 1, parent_hash: 999, state_root: 0, digest: vec![] };
    let r = initialize_block(&cfg, genesis_state(), &header);
    assert!(matches!(r, Err(BlockError::ParentMismatch)));
}

#[test]
fn initialize_rejects_wrong_number() {
    let cfg = test_config();
    let header = Header { number: 2, parent_hash: GENESIS_HASH, state_root: 0, digest: vec![] };
    let r = initialize_block(&cfg, genesis_state(), &header);
    assert!(matches!(r, Err(BlockError::ParentMismatch)));
}

#[test]
fn on_initialize_runs_in_declared_order() {
    let cfg = test_config();
    let ex = initialize_block(&cfg, genesis_state(), &authoring_header()).unwrap();
    assert_eq!(ex.phase, Phase::Initialized);
    assert_eq!(
        ex.init_trace,
        vec![
            ModuleId::System,
            ModuleId::RandomnessSource,
            ModuleId::Babe,
            ModuleId::Grandpa,
            ModuleId::Timestamp,
            ModuleId::Balances,
            ModuleId::Sudo,
        ]
    );
}

#[test]
fn on_finalize_runs_in_reverse_order() {
    let cfg = test_config();
    let ex = initialize_block(&cfg, genesis_state(), &authoring_header()).unwrap();
    let fin = ex.finalize_block();
    let mut expected = vec![
        ModuleId::System,
        ModuleId::RandomnessSource,
        ModuleId::Babe,
        ModuleId::Grandpa,
        ModuleId::Timestamp,
        ModuleId::Balances,
        ModuleId::Sudo,
    ];
    expected.reverse();
    assert_eq!(fin.finalize_trace, expected);
}

#[test]
fn nonce_must_match_and_advances() {
    let cfg = test_config();
    let mut ex = initialize_block(&cfg, genesis_state(), &authoring_header()).unwrap();
    // committed nonce is 0: nonce 0 succeeds and leaves the nonce at 1
    let r = ex.apply_extrinsic(&cfg, &transfer(0, 10));
    assert_eq!(r, Ok(Ok(())));
    assert_eq!(ex.state.get_account(ALICE).nonce, 1);
    // replaying nonce 0 is permanently stale
    let r = ex.apply_extrinsic(&cfg, &transfer(0, 10));
    assert_eq!(r, Err(TransactionValidityError::Stale));
    // skipping to nonce 2 is not yet valid
    let r = ex.apply_extrinsic(&cfg, &transfer(2, 10));
    assert_eq!(r, Err(TransactionValidityError::Future));
    // the nonce in between still works
    let r = ex.apply_extrinsic(&cfg, &transfer(1, 10));
    assert_eq!(r, Ok(Ok(())));
    assert_eq!(ex.state.get_account(ALICE).nonce, 2);
}

#[test]
fn third_heavy_extrinsic_exhausts_block_weight() {
    // max block weight of two seconds' worth of weight, base weight
    // 100_000_000: three calls of weight 900_000_000 each cost a round
    // 1_000_000_000 apiece, so the first two fill the budget exactly and the
    // third must fail with weight exhaustion.
    let cfg = test_config();
    let mut ex = initialize_block(&cfg, genesis_state(), &authoring_header()).unwrap();
    assert_eq!(ex.apply_extrinsic(&cfg, &transfer(0, 1)), Ok(Ok(())));
    assert_eq!(ex.apply_extrinsic(&cfg, &transfer(1, 1)), Ok(Ok(())));
    assert_eq!(ex.used_weight, 2_000_000_000);
    assert_eq!(
        ex.apply_extrinsic(&cfg, &transfer(2, 1)),
        Err(TransactionValidityError::ExhaustsResources)
    );
    // the failed extrinsic consumed nothing
    assert_eq!(ex.used_weight, 2_000_000_000);
    assert_eq!(ex.state.get_account(ALICE).nonce, 2);
}

#[test]
fn transfer_moves_value_and_emits_event() {
    let cfg = test_config();
    let mut ex = initialize_block(&cfg, genesis_state(), &authoring_header()).unwrap();
    assert_eq!(ex.apply_extrinsic(&cfg, &transfer(0, 300)), Ok(Ok(())));
    assert_eq!(ex.state.get_account(ALICE).balance, 1_000_000 - 300);
    assert_eq!(ex.state.get_account(BOB).balance, 800);
    assert_eq!(ex.events, vec![Event::Transfer { from: ALICE, to: BOB, value: 300 }]);
}

#[test]
fn failed_dispatch_keeps_nonce_and_weight_but_no_effects() {
    let cfg = test_config();
    let mut ex = initialize_block(&cfg, genesis_state(), &authoring_header()).unwrap();
    let before_weight = ex.used_weight;
    // far more than the balance: the dispatch fails gracefully
    let r = ex.apply_extrinsic(&cfg, &transfer(0, 10_000_000));
    assert_eq!(r, Ok(Err(DispatchError::InsufficientBalance)));
    assert_eq!(ex.state.get_account(ALICE).nonce, 1);
    assert_eq!(ex.state.get_account(ALICE).balance, 1_000_000);
    assert_eq!(ex.state.get_account(BOB).balance, 500);
    assert!(ex.used_weight > before_weight);
    assert_eq!(ex.events, vec![]);
}

#[test]
fn timestamp_inherent_sets_time_once() {
    let cfg = test_config();
    let mut ex = initialize_block(&cfg, genesis_state(), &authoring_header()).unwrap();
    assert_eq!(ex.apply_extrinsic(&cfg, &timestamp_inherent(3000)), Ok(Ok(())));
    assert_eq!(ex.state.timestamp_now, 3000);
    // a second timestamp in the same block rejects the block
    assert_eq!(
        ex.apply_extrinsic(&cfg, &timestamp_inherent(9000)),
        Err(TransactionValidityError::BadMandatory)
    );
}

#[test]
fn timestamp_must_advance_by_minimum_period() {
    let cfg = test_config();
    let mut state = genesis_state();
    state.timestamp_now = 6000;
    let mut ex = initialize_block(&cfg, state, &authoring_header()).unwrap();
    // 6000 + minimum_period 3000 = 9000; anything below regresses
    assert_eq!(
        ex.apply_extrinsic(&cfg, &timestamp_inherent(8999)),
        Err(TransactionValidityError::BadMandatory)
    );
    assert_eq!(ex.apply_extrinsic(&cfg, &timestamp_inherent(9000)), Ok(Ok(())));
}

#[test]
fn inherent_with_signed_only_call_rejects_block() {
    let cfg = test_config();
    let mut ex = initialize_block(&cfg, genesis_state(), &authoring_header()).unwrap();
    let xt = Extrinsic::Inherent { call: Call::System(SystemCall::Remark { note: 1 }) };
    assert_eq!(ex.apply_extrinsic(&cfg, &xt), Err(TransactionValidityError::BadMandatory));
}

#[test]
fn execute_block_is_deterministic() {
    let cfg = test_config();
    // author the block once
    let mut ex = initialize_block(&cfg, genesis_state(), &authoring_header()).unwrap();
    let xts = vec![timestamp_inherent(3000), transfer(0, 42)];
    for xt in &xts {
        assert_eq!(ex.apply_extrinsic(&cfg, xt), Ok(Ok(())));
    }
    let fin = ex.finalize_block();
    let block = Block { header: fin.header, extrinsics: xts };

    // importing it twice from the same parent state yields identical headers
    let first = execute_block(&cfg, genesis_state(), &block).unwrap();
    let second = execute_block(&cfg, genesis_state(), &block).unwrap();
    assert_eq!(first.header.number, second.header.number);
    assert_eq!(first.header.parent_hash, second.header.parent_hash);
    assert_eq!(first.header.state_root, second.header.state_root);
    assert_eq!(first.header.digest, second.header.digest);
    assert_eq!(first.state.get_account(ALICE).balance, second.state.get_account(ALICE).balance);
    assert_eq!(first.state.block_hashes, second.state.block_hashes);
    // and the header matches what the author computed
    assert_eq!(first.header.state_root, block.header.state_root);
}

#[test]
fn execute_block_rejects_tampered_state_root() {
    let cfg = test_config();
    let mut ex = initialize_block(&cfg, genesis_state(), &authoring_header()).unwrap();
    assert_eq!(ex.apply_extrinsic(&cfg, &timestamp_inherent(3000)), Ok(Ok(())));
    let fin = ex.finalize_block();
    let mut header = fin.header;
    header.state_root ^= 1;
    let block = Block { header, extrinsics: vec![timestamp_inherent(3000)] };
    let r = execute_block(&cfg, genesis_state(), &block);
    assert!(matches!(r, Err(BlockError::HeaderMismatch)));
}

#[test]
fn execute_block_rejects_block_with_invalid_extrinsic() {
    let cfg = test_config();
    // a block whose second extrinsic replays a nonce is invalid as a whole
    let mut ex = initialize_block(&cfg, genesis_state(), &authoring_header()).unwrap();
    assert_eq!(ex.apply_extrinsic(&cfg, &transfer(0, 1)), Ok(Ok(())));
    let fin = ex.finalize_block();
    let block = Block { header: fin.header, extrinsics: vec![transfer(0, 1), transfer(0, 1)] };
    let r = execute_block(&cfg, genesis_state(), &block);
    assert!(matches!(
        r,
        Err(BlockError::InvalidExtrinsic(TransactionValidityError::Stale))
    ));
}

#[test]
fn mortal_era_is_checked_against_window_and_checkpoint() {
    let cfg = test_config();
    let mut state = genesis_state();
    // grow the chain to three known blocks (numbers 0, 1, 2)
    state.block_hashes.push(100);
    state.block_hashes.push(101);
    let make = |era: Era, checkpoint: u64, nonce: u32| Extrinsic::Signed {
        who: ALICE,
        signature: 0,
        call: Call::System(SystemCall::Remark { note: 5 }),
        extra: SignedExtra {
            spec_version: 1,
            transaction_version: 1,
            genesis_hash: GENESIS_HASH,
            era,
            checkpoint_hash: checkpoint,
            nonce,
        },
    };
    let header = Header { number: 3, parent_hash: 101, state_root: 0, digest: vec![] };

    // the current block (3) is past the window
    let mut ex = initialize_block(&cfg, clone_state(&state), &header).unwrap();
    let closed = make(Era::Mortal { birth: 1, death: 2 }, 100, 0);
    assert_eq!(ex.apply_extrinsic(&cfg, &closed), Err(TransactionValidityError::Outdated));

    // the window has not opened yet
    let not_open = make(Era::Mortal { birth: 5, death: 9 }, 100, 0);
    assert_eq!(ex.apply_extrinsic(&cfg, &not_open), Err(TransactionValidityError::Future));

    // wrong checkpoint hash at the birth height
    let wrong_anchor = make(Era::Mortal { birth: 1, death: 5 }, 999, 0);
    assert_eq!(ex.apply_extrinsic(&cfg, &wrong_anchor), Err(TransactionValidityError::Outdated));

    // the right anchor passes
    let anchored = make(Era::Mortal { birth: 1, death: 5 }, 100, 0);
    assert_eq!(ex.apply_extrinsic(&cfg, &anchored), Ok(Ok(())));
}

fn clone_state(state: &ChainState) -> ChainState {
    let self_ = state;
    {
        ChainState {
            genesis_hash: self_.genesis_hash,
            block_hashes: self_.block_hashes.clone(),
            accounts: self_.accounts.clone(),
            timestamp_now: self_.timestamp_now,
            randomness: self_.randomness,
            babe: BabeState {
                authorities: self_.babe.authorities.clone(),
                genesis_slot: self_.babe.genesis_slot,
                epoch_index: self_.babe.epoch_index,
            },
            grandpa: GrandpaState {
                authorities: self_.grandpa.authorities.clone(),
                set_id: self_.grandpa.set_id,
            },
        }
    }
}

#[test]
fn length_budget_rejects_oversized_extrinsics() {
    let mut cfg = test_config();
    // room for one encoded transfer (74 bytes), not two
    cfg.limits.max_block_length = 100;
    let mut ex = initialize_block(&cfg, genesis_state(), &authoring_header()).unwrap();
    assert_eq!(ex.apply_extrinsic(&cfg, &transfer(0, 1)), Ok(Ok(())));
    assert_eq!(
        ex.apply_extrinsic(&cfg, &transfer(1, 1)),
        Err(TransactionValidityError::ExhaustsResources)
    );
}

#[test]
fn transfer_to_self_keeps_the_balance() {
    let cfg = test_config();
    let mut ex = initialize_block(&cfg, genesis_state(), &authoring_header()).unwrap();
    let xt = Extrinsic::Signed {
        who: ALICE,
        signature: 0,
        call: Call::Balances(BalancesCall::Transfer { dest: ALICE, value: 700 }),
        extra: extra_with_nonce(0),
    };
    assert_eq!(ex.apply_extrinsic(&cfg, &xt), Ok(Ok(())));
    assert_eq!(ex.state.get_account(ALICE).balance, 1_000_000);
    assert_eq!(ex.state.get_account(ALICE).nonce, 1);
}

#[test]
fn transfer_overflowing_the_destination_fails_gracefully() {
    let cfg = test_config();
    let mut state = genesis_state();
    state.accounts.push((3, AccountInfo { nonce: 0, balance: u64::MAX }));
    let mut ex = initialize_block(&cfg, state, &authoring_header()).unwrap();
    let xt = Extrinsic::Signed {
        who: ALICE,
        signature: 0,
        call: Call::Balances(BalancesCall::Transfer { dest: 3, value: 1 }),
        extra: extra_with_nonce(0),
    };
    assert_eq!(ex.apply_extrinsic(&cfg, &xt), Ok(Err(DispatchError::BalanceOverflow)));
    assert_eq!(ex.state.get_account(3).balance, u64::MAX);
    assert_eq!(ex.state.get_account(ALICE).nonce, 1);
}

#[test]
fn remark_emits_its_event_and_changes_nothing() {
    let cfg = test_config();
    let mut ex = initialize_block(&cfg, genesis_state(), &authoring_header()).unwrap();
    let xt = Extrinsic::Signed {
        who: ALICE,
        signature: 0,
        call: Call::System(SystemCall::Remark { note: 0xcafe }),
        extra: extra_with_nonce(0),
    };
    assert_eq!(ex.apply_extrinsic(&cfg, &xt), Ok(Ok(())));
    assert_eq!(ex.events, vec![Event::Remarked { who: ALICE, note: 0xcafe }]);
    assert_eq!(ex.state.get_account(ALICE).balance, 1_000_000);
}
