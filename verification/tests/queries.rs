use runtime_core::codec::{decode_extrinsic, encode_extrinsic, encoded_len};
use runtime_core::config::{RuntimeConfig, RuntimeVersion};
use runtime_core::consensus::{
    check_inherents, configuration, current_epoch_start, generate_key_ownership_proof,
    grandpa_authorities, inherent_extrinsics, random_seed, submit_report_equivocation, version,
    CheckInherentsResult, InherentData, InherentError,
};
use runtime_core::block::{Block, Header};
use runtime_core::extrinsic::{Era, Extrinsic, SignedExtra};
use runtime_core::registry::{
    runtime_metadata, BalancesCall, Call, DispatchWeights, ModuleId, SystemCall, TimestampCall,
};
use runtime_core::session::{
    decode_session_keys, encode_session_keys, generate_session_keys, KeyTypeId, SessionKeys,
};
use runtime_core::state::{AccountInfo, BabeState, ChainState, GrandpaState};
use runtime_core::validity::{
    validate_transaction, TransactionSource, TransactionTag, TransactionValidityError,
};
use runtime_core::weights::WeightLimits;

const GENESIS_HASH: u64 = 7;
const ALICE: u64 = 1;
const BOB: u64 = 2;

fn test_config() -> RuntimeConfig {
    RuntimeConfig {
        version: RuntimeVersion {
            spec_name: "polkadot".to_string(),
            impl_name: "host-tester".to_string(),
            authoring_version: 2,
            spec_version: 1,
            impl_version: 1,
            transaction_version: 1,
        },
        limits: WeightLimits {
            max_block_weight: 2_000_000_000,
            max_extrinsic_weight: 1_300_000_000,
            max_block_length: 5 * 1024 * 1024,
            extrinsic_base_weight: 100_000_000,
            block_execution_weight: 0,
        },
        dispatch_weights: DispatchWeights {
            system_remark: 10_000_000,
            timestamp_set: 10_000_000,
            balances_transfer: 900_000_000,
        },
        minimum_period: 3000,
        timestamp_tolerance: 30_000,
        slot_duration: 6000,
        epoch_duration: 14400,
        c_numerator: 1,
        c_denominator: 4,
    }
}

fn genesis_state() -> ChainState {
    let mut state = ChainState::genesis(
        GENESIS_HASH,
        vec![
            (ALICE, AccountInfo { nonce: 0, balance: 1_000_000 }),
            (BOB, AccountInfo { nonce: 0, balance: 500 }),
        ],
        BabeState {
            authorities: vec![(11, 1), (12, 1), (13, 1), (14, 1)],
            genesis_slot: 1000,
            epoch_index: 3,
        },
        GrandpaState { authorities: vec![(21, 1), (22, 1), (23, 1), (24, 1)], set_id: 5 },
    );
    state.randomness = 99;
    state
}

fn extra_with(spec_version: u32, nonce: u32) -> SignedExtra {
    SignedExtra {
        spec_version,
        transaction_version: 1,
        genesis_hash: GENESIS_HASH,
        era: Era::Immortal,
        checkpoint_hash: GENESIS_HASH,
        nonce,
    }
}

fn signed_transfer(spec_version: u32, nonce: u32) -> Extrinsic {
    Extrinsic::Signed {
        who: ALICE,
        signature: 0x1234,
        call: Call::Balances(BalancesCall::Transfer { dest: BOB, value: 9 }),
        extra: extra_with(spec_version, nonce),
    }
}

#[test]
fn codec_round_trips_signed_extrinsic() {
    let xt = Extrinsic::Signed {
        who: 0xdead_beef_1234_5678,
        signature: 0xffff_ffff_ffff_ffff,
        call: Call::Balances(BalancesCall::Transfer { dest: 3, value: u64::MAX }),
        extra: SignedExtra {
            spec_version: 1,
            transaction_version: 1,
            genesis_hash: GENESIS_HASH,
            era: Era::Mortal { birth: 4, death: 260 },
            checkpoint_hash: 0x0102_0304_0506_0708,
            nonce: 42,
        },
    };
    let bytes = encode_extrinsic(&xt);
    assert_eq!(bytes.len() as u32, encoded_len(&xt));
    assert_eq!(decode_extrinsic(&bytes), Some(xt));
}

#[test]
fn codec_round_trips_inherent_extrinsic() {
    let xt = Extrinsic::Inherent {
        call: Call::Timestamp(TimestampCall::SetNow { now: 123_456_789 }),
    };
    let bytes = encode_extrinsic(&xt);
    assert_eq!(decode_extrinsic(&bytes), Some(xt));
}

#[test]
fn codec_round_trips_remark() {
    let xt = Extrinsic::Signed {
        who: ALICE,
        signature: 0,
        call: Call::System(SystemCall::Remark { note: 7 }),
        extra: extra_with(1, 0),
    };
    let bytes = encode_extrinsic(&xt);
    assert_eq!(decode_extrinsic(&bytes), Some(xt));
}

#[test]
fn codec_rejects_malformed_bytes() {
    assert_eq!(decode_extrinsic(&vec![]), None);
    // an unknown extrinsic tag
    assert_eq!(decode_extrinsic(&vec![9u8]), None);
    // a truncated encoding
    let xt = Extrinsic::Inherent { call: Call::Timestamp(TimestampCall::SetNow { now: 5 }) };
    let mut bytes = encode_extrinsic(&xt);
    bytes.pop();
    assert_eq!(decode_extrinsic(&bytes), None);
    // a trailing byte
    let mut bytes = encode_extrinsic(&xt);
    bytes.push(0);
    assert_eq!(decode_extrinsic(&bytes), None);
}

#[test]
fn stale_spec_version_is_invalid_for_every_source() {
    let cfg = test_config();
    let state = genesis_state();
    // one below the runtime's spec version
    let xt = signed_transfer(0, 0);
    for source in [TransactionSource::InBlock, TransactionSource::Local, TransactionSource::External]
    {
        let r = validate_transaction(&cfg, &state, source, &xt);
        assert_eq!(r.unwrap_err(), TransactionValidityError::Stale);
    }
}

#[test]
fn future_spec_version_and_wrong_chain_are_rejected() {
    let cfg = test_config();
    let state = genesis_state();
    let ahead = signed_transfer(2, 0);
    assert_eq!(
        validate_transaction(&cfg, &state, TransactionSource::External, &ahead).unwrap_err(),
        TransactionValidityError::Future
    );
    let mut wrong_chain = extra_with(1, 0);
    wrong_chain.genesis_hash = 1234;
    let xt = Extrinsic::Signed {
        who: ALICE,
        signature: 0,
        call: Call::System(SystemCall::Remark { note: 0 }),
        extra: wrong_chain,
    };
    assert_eq!(
        validate_transaction(&cfg, &state, TransactionSource::External, &xt).unwrap_err(),
        TransactionValidityError::WrongChain
    );
    let mut bad_tx_version = extra_with(1, 0);
    bad_tx_version.transaction_version = 9;
    let xt = Extrinsic::Signed {
        who: ALICE,
        signature: 0,
        call: Call::System(SystemCall::Remark { note: 0 }),
        extra: bad_tx_version,
    };
    assert_eq!(
        validate_transaction(&cfg, &state, TransactionSource::External, &xt).unwrap_err(),
        TransactionValidityError::BadTransactionVersion
    );
}

#[test]
fn pool_queues_gapped_nonce_with_requires_tag() {
    let cfg = test_config();
    let state = genesis_state();
    let gapped = signed_transfer(1, 2);
    let v = validate_transaction(&cfg, &state, TransactionSource::External, &gapped).unwrap();
    assert_eq!(v.requires_tag, Some(TransactionTag { who: ALICE, nonce: 1 }));
    assert_eq!(v.provides_tag, TransactionTag { who: ALICE, nonce: 2 });
    assert_eq!(v.priority, 900_000_000);
    assert!(v.propagate);
    assert_eq!(v.longevity, u64::MAX);

    // a matching nonce requires nothing
    let v = validate_transaction(&cfg, &state, TransactionSource::External, &signed_transfer(1, 0))
        .unwrap();
    assert_eq!(v.requires_tag, None);
}

#[test]
fn pool_rejects_inherents() {
    let cfg = test_config();
    let state = genesis_state();
    let xt = Extrinsic::Inherent { call: Call::Timestamp(TimestampCall::SetNow { now: 5 }) };
    assert_eq!(
        validate_transaction(&cfg, &state, TransactionSource::External, &xt).unwrap_err(),
        TransactionValidityError::BadMandatory
    );
}

#[test]
fn epoch_configuration_is_exact_and_idempotent() {
    let cfg = test_config();
    let state = genesis_state();
    let first = configuration(&cfg, &state);
    assert_eq!(first.authorities.len(), 4);
    assert_eq!(first.epoch_length, 14400);
    assert_eq!(first.slot_duration, 6000);
    assert_eq!(first.c_numerator, 1);
    assert_eq!(first.c_denominator, 4);
    assert_eq!(first.randomness, 99);
    let second = configuration(&cfg, &state);
    assert_eq!(first.authorities, second.authorities);
    assert_eq!(first.epoch_length, second.epoch_length);
    assert_eq!(first.slot_duration, second.slot_duration);
    assert_eq!(first.randomness, second.randomness);
}

#[test]
fn consensus_queries_read_committed_state() {
    let cfg = test_config();
    let state = genesis_state();
    assert_eq!(current_epoch_start(&cfg, &state), 1000 + 3 * 14400);
    let set = grandpa_authorities(&state);
    assert_eq!(set.authorities, vec![(21, 1), (22, 1), (23, 1), (24, 1)]);
    assert_eq!(set.set_id, 5);
    assert_eq!(random_seed(&state), 99);
    let v = version(&cfg);
    assert_eq!(v.spec_version, 1);
    assert_eq!(v.transaction_version, 1);
    assert_eq!(v.spec_name, "polkadot");
}

#[test]
fn equivocation_capability_reports_unsupported() {
    assert!(generate_key_ownership_proof(11).is_none());
    assert!(submit_report_equivocation(11).is_none());
}

#[test]
fn inherent_extrinsics_place_the_timestamp() {
    let data = InherentData { timestamp: 42_000 };
    let xts = inherent_extrinsics(&data);
    assert_eq!(
        xts,
        vec![Extrinsic::Inherent { call: Call::Timestamp(TimestampCall::SetNow { now: 42_000 }) }]
    );
}

#[test]
fn check_inherents_enforces_the_tolerance() {
    let cfg = test_config();
    let header = Header { number: 1, parent_hash: GENESIS_HASH, state_root: 0, digest: vec![] };
    let within = Block {
        header,
        extrinsics: vec![Extrinsic::Inherent {
            call: Call::Timestamp(TimestampCall::SetNow { now: 42_000 + 30_000 }),
        }],
    };
    let data = InherentData { timestamp: 42_000 };
    assert_eq!(check_inherents(&cfg, &within, &data), CheckInherentsResult::Satisfied);

    let header = Header { number: 1, parent_hash: GENESIS_HASH, state_root: 0, digest: vec![] };
    let beyond = Block {
        header,
        extrinsics: vec![Extrinsic::Inherent {
            call: Call::Timestamp(TimestampCall::SetNow { now: 42_000 + 30_001 }),
        }],
    };
    assert_eq!(
        check_inherents(&cfg, &beyond, &data),
        CheckInherentsResult::Unsatisfied(InherentError::TimestampTooFarInFuture)
    );
}

#[test]
fn session_keys_round_trip() {
    let keys = SessionKeys { babe: 0x1111_2222_3333_4444, grandpa: 0x5555_6666_7777_8888 };
    let bytes = encode_session_keys(&keys);
    assert_eq!(
        decode_session_keys(&bytes),
        Some(vec![(keys.babe, KeyTypeId::Babe), (keys.grandpa, KeyTypeId::Grandpa)])
    );
    // generated material decodes too, and the derivation is deterministic
    let generated = generate_session_keys(12345);
    assert_eq!(generated, generate_session_keys(12345));
    let pairs = decode_session_keys(&generated).unwrap();
    assert_eq!(pairs.len(), 2);
    assert_eq!(pairs[0].1, KeyTypeId::Babe);
    assert_eq!(pairs[1].1, KeyTypeId::Grandpa);
    // anything but a two-key bundle is rejected
    assert_eq!(decode_session_keys(&vec![0u8; 15]), None);
    assert_eq!(decode_session_keys(&vec![0u8; 17]), None);
}

#[test]
fn metadata_describes_every_module_in_order() {
    let meta = runtime_metadata();
    assert_eq!(meta.len(), 7);
    assert_eq!(meta[0].id, ModuleId::System);
    assert_eq!(meta[6].id, ModuleId::Sudo);
    // dispatchable actions: one each for system, timestamp and balances
    let calls: u32 = meta.iter().map(|m| m.call_count).sum();
    assert_eq!(calls, 3);
}

#[test]
fn mortal_extrinsic_longevity_spans_to_its_death() {
    let cfg = test_config();
    let state = genesis_state();
    // the next block is number 1; the window closes at block 6
    let xt = Extrinsic::Signed {
        who: ALICE,
        signature: 0,
        call: Call::System(SystemCall::Remark { note: 0 }),
        extra: SignedExtra {
            spec_version: 1,
            transaction_version: 1,
            genesis_hash: GENESIS_HASH,
            era: Era::Mortal { birth: 0, death: 6 },
            checkpoint_hash: GENESIS_HASH,
            nonce: 0,
        },
    };
    let v = validate_transaction(&cfg, &state, TransactionSource::Local, &xt).unwrap();
    assert_eq!(v.longevity, 5);
    assert!(v.propagate);
}
