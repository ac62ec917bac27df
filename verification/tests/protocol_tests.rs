//! Protocol state-machine behavior: counter sequencing, validation and
//! authorization failures leaving state untouched, nullifier single-use,
//! and deterministic address derivation.

use cross_chain_token_bridge::errors::ErrorCode;
use cross_chain_token_bridge::address::{
    derive_counter_address, derive_deposit_address, derive_withdrawal_address,
};
use cross_chain_token_bridge::ledger::{
    init_bridge_state, init_token_bridge, init_withdrawal_proof, next_deposit_id,
    next_withdraw_id,
};
use cross_chain_token_bridge::protocol::{
    create_counter, deposit, increment_counter, withdraw, NullifierSet,
    PackedAddressMerkleContext,
};
use cross_chain_token_bridge::state::{BridgeState, TokenBridge, WithdrawalProof};
use cross_chain_token_bridge::zk::VerifyingKey;

const TREE: [u8; 32] = [11u8; 32];
const PROGRAM: [u8; 32] = [22u8; 32];

fn ctx() -> PackedAddressMerkleContext {
    PackedAddressMerkleContext {
        address_merkle_tree_pubkey_index: 0,
        address_queue_pubkey_index: 1,
        root_index: 5,
    }
}

fn link() -> TokenBridge {
    init_token_bridge(1, "SrcMint11111".to_string(), 31337, "0xfeedface".to_string())
        .expect("link must initialize")
}

fn test_vk() -> VerifyingKey {
    VerifyingKey {
        nr_pubinputs: 2,
        vk_alpha_g1: [1u8; 64],
        vk_beta_g2: [2u8; 128],
        vk_gamme_g2: [3u8; 128],
        vk_delta_g2: [4u8; 128],
        vk_ic: vec![[5u8; 64], [6u8; 64], [7u8; 64]],
    }
}

fn staged() -> WithdrawalProof {
    init_withdrawal_proof([1u8; 64], [2u8; 128], [3u8; 64], [9u8; 32], [8u8; 32])
}

#[test]
fn counters_start_at_zero_and_advance_by_one() {
    let mut state = init_bridge_state();
    assert_eq!(state.deposit_count, 0);
    assert_eq!(state.withdraw_count, 0);
    for n in 1..=5u128 {
        let id = next_deposit_id(&mut state).expect("no overflow");
        assert_eq!(id, n);
        assert_eq!(state.deposit_count, n);
        assert_eq!(state.withdraw_count, 0);
    }
    let id = next_withdraw_id(&mut state).expect("no overflow");
    assert_eq!(id, 1);
    assert_eq!(state.deposit_count, 5);
}

#[test]
fn counter_overflow_is_reported_and_nonmutating() {
    let mut state = BridgeState { deposit_count: u128::MAX, withdraw_count: u128::MAX };
    assert_eq!(next_deposit_id(&mut state), Err(ErrorCode::CounterOverflow));
    assert_eq!(next_withdraw_id(&mut state), Err(ErrorCode::CounterOverflow));
    assert_eq!(state.deposit_count, u128::MAX);
    assert_eq!(state.withdraw_count, u128::MAX);
}

#[test]
fn link_rejects_overlong_mint_addresses() {
    let long = "x".repeat(51);
    assert_eq!(
        init_token_bridge(1, long.clone(), 2, "ok".to_string()).unwrap_err(),
        ErrorCode::InvalidArgs
    );
    assert_eq!(
        init_token_bridge(1, "ok".to_string(), 2, long).unwrap_err(),
        ErrorCode::InvalidArgs
    );
}

#[test]
fn deposit_assigns_sequential_ids() {
    let mut state = init_bridge_state();
    let tb = link();
    for n in 1..=3u128 {
        let plan = deposit(
            &mut state,
            &tb,
            &[1u8; 32],
            &[2u8; 32],
            10000,
            31337,
            "0xabc".to_string(),
            1750482928,
            &TREE,
            &ctx(),
            0,
            &PROGRAM,
        )
        .expect("deposit must succeed");
        assert_eq!(plan.record.deposit_id, n);
        assert_eq!(state.deposit_count, n);
        assert_eq!(plan.record.amount, 10000);
        assert_eq!(plan.record.dest_chain_id, 31337);
        assert_eq!(plan.record.source_chain_id, 1);
        assert_eq!(plan.record.dest_chain_mint_addr, "0xfeedface");
        assert_eq!(plan.custody.amount, 10000);
        assert_eq!(plan.custody.depositor, [1u8; 32]);
    }
}

#[test]
fn deposit_zero_amount_rejected_without_mutation() {
    let mut state = init_bridge_state();
    let tb = link();
    let r = deposit(
        &mut state,
        &tb,
        &[1u8; 32],
        &[2u8; 32],
        0,
        31337,
        "0xabc".to_string(),
        0,
        &TREE,
        &ctx(),
        0,
        &PROGRAM,
    );
    assert_eq!(r.unwrap_err(), ErrorCode::DepositAmountShouldBeGreaterThanZero);
    assert_eq!(state.deposit_count, 0);
}

#[test]
fn deposit_overlong_address_rejected() {
    let mut state = init_bridge_state();
    let tb = link();
    let r = deposit(
        &mut state,
        &tb,
        &[1u8; 32],
        &[2u8; 32],
        5,
        31337,
        "y".repeat(65),
        0,
        &TREE,
        &ctx(),
        0,
        &PROGRAM,
    );
    assert_eq!(r.unwrap_err(), ErrorCode::InvalidArgs);
    assert_eq!(state.deposit_count, 0);
}

#[test]
fn withdraw_zero_amount_is_fully_nonmutating() {
    let mut state = init_bridge_state();
    let mut nullifiers = NullifierSet::new();
    let tb = link();
    let r = withdraw(
        &mut state,
        &mut nullifiers,
        &tb,
        &staged(),
        &test_vk(),
        0,
        &[5u8; 32],
        &[2u8; 32],
        7,
        &TREE,
        &ctx(),
        0,
        &PROGRAM,
    );
    assert_eq!(r.unwrap_err(), ErrorCode::WithdrawAmountShouldBeGreaterThanZero);
    assert_eq!(state.withdraw_count, 0);
    assert_eq!(state.deposit_count, 0);
}

#[test]
fn withdraw_failed_proof_is_fully_nonmutating() {
    let mut state = init_bridge_state();
    let mut nullifiers = NullifierSet::new();
    let tb = link();
    // Garbage proof bytes: the pairing check cannot accept them.
    let r = withdraw(
        &mut state,
        &mut nullifiers,
        &tb,
        &staged(),
        &test_vk(),
        100,
        &[5u8; 32],
        &[2u8; 32],
        7,
        &TREE,
        &ctx(),
        0,
        &PROGRAM,
    );
    assert_eq!(r.unwrap_err(), ErrorCode::Groth16VerificationFailed);
    assert_eq!(state.withdraw_count, 0);
}

#[test]
fn withdraw_wrong_key_shape_is_invalid_proof_data() {
    let mut state = init_bridge_state();
    let mut nullifiers = NullifierSet::new();
    let tb = link();
    let mut vk = test_vk();
    vk.vk_ic = vec![[5u8; 64], [6u8; 64]];
    let r = withdraw(
        &mut state,
        &mut nullifiers,
        &tb,
        &staged(),
        &vk,
        100,
        &[5u8; 32],
        &[2u8; 32],
        7,
        &TREE,
        &ctx(),
        0,
        &PROGRAM,
    );
    assert_eq!(r.unwrap_err(), ErrorCode::InvalidProofData);
    assert_eq!(state.withdraw_count, 0);
}

#[test]
fn withdraw_consumed_nullifier_is_rejected() {
    let mut state = init_bridge_state();
    let mut nullifiers = NullifierSet::new();
    let tb = link();
    let proof = staged();
    nullifiers.insert(proof.nullifier);
    let r = withdraw(
        &mut state,
        &mut nullifiers,
        &tb,
        &proof,
        &test_vk(),
        100,
        &[5u8; 32],
        &[2u8; 32],
        7,
        &TREE,
        &ctx(),
        0,
        &PROGRAM,
    );
    assert_eq!(r.unwrap_err(), ErrorCode::NullifierAlreadyUsed);
    assert_eq!(state.withdraw_count, 0);
}

#[test]
fn nullifier_set_membership() {
    let mut set = NullifierSet::new();
    assert!(!set.contains(&[9u8; 32]));
    set.insert([9u8; 32]);
    assert!(set.contains(&[9u8; 32]));
    assert!(!set.contains(&[10u8; 32]));
}

#[test]
fn address_derivation_is_deterministic() {
    let (a1, s1) = derive_deposit_address(&[1u8; 32], 7, &TREE, &PROGRAM);
    let (a2, s2) = derive_deposit_address(&[1u8; 32], 7, &TREE, &PROGRAM);
    assert_eq!(a1, a2);
    assert_eq!(s1, s2);
}

#[test]
fn address_changes_with_any_triple_component() {
    let (base, _) = derive_deposit_address(&[1u8; 32], 7, &TREE, &PROGRAM);
    let (other_subject, _) = derive_deposit_address(&[2u8; 32], 7, &TREE, &PROGRAM);
    let (other_id, _) = derive_deposit_address(&[1u8; 32], 8, &TREE, &PROGRAM);
    let (other_tag, _) = derive_withdrawal_address(&[1u8; 32], 7, &TREE, &PROGRAM);
    let (other_tree, _) = derive_deposit_address(&[1u8; 32], 7, &[12u8; 32], &PROGRAM);
    let (other_program, _) = derive_deposit_address(&[1u8; 32], 7, &TREE, &[23u8; 32]);
    assert_ne!(base, other_subject);
    assert_ne!(base, other_id);
    assert_ne!(base, other_tag);
    assert_ne!(base, other_tree);
    assert_ne!(base, other_program);
}

#[test]
fn counter_accounts_create_and_increment() {
    let plan = create_counter(&[1u8; 32], &TREE, &ctx(), 3, &PROGRAM);
    assert_eq!(plan.counter.counter, 0);
    assert_eq!(plan.counter.owner, [1u8; 32]);
    assert_eq!(plan.output_merkle_tree_index, 3);
    let (expected_addr, _) = derive_counter_address(&[1u8; 32], &TREE, &PROGRAM);
    assert_eq!(plan.address, expected_addr);
    let c = increment_counter(&[1u8; 32], 41);
    assert_eq!(c.counter, 42);
}

#[test]
fn error_messages_are_descriptive() {
    assert_eq!(
        ErrorCode::DepositAmountShouldBeGreaterThanZero.message(),
        "DepositAmountShouldBeGreaterThanZero"
    );
    assert_eq!(ErrorCode::Groth16VerificationFailed.message(), "Groth16 Verification Failed");
    assert_eq!(ErrorCode::InvalidProofData.message(), "Invalid Proof Data");
}

#[test]
fn staged_proof_keeps_its_fields() {
    let p = init_withdrawal_proof([1u8; 64], [2u8; 128], [3u8; 64], [9u8; 32], [8u8; 32]);
    assert_eq!(p.proof_a, [1u8; 64]);
    assert_eq!(p.proof_b, [2u8; 128]);
    assert_eq!(p.proof_c, [3u8; 64]);
    assert_eq!(p.nullifier, [9u8; 32]);
    assert_eq!(p.new_root, [8u8; 32]);
}
