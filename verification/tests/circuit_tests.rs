//! Circuit input construction: padding and truncation to the fixed tree
//! depth, path indices, the per-field encodings, and the end-to-end
//! deposit scenario.

use cross_chain_token_bridge::circuit::{
    assess_proving_outcome, constructSolDepositCircuitInputs, CompressedAccountData,
    CompressedAccountInfo, MerkleProofInfo, TREE_LEVELS,
};
use cross_chain_token_bridge::codec::decode_deposit_record;
use cross_chain_token_bridge::errors::RelayerError;
use cross_chain_token_bridge::ledger::{init_bridge_state, init_token_bridge};
use cross_chain_token_bridge::protocol::{deposit, PackedAddressMerkleContext};
use cross_chain_token_bridge::state::DepositRecordCompressedAccount;

fn record() -> DepositRecordCompressedAccount {
    DepositRecordCompressedAccount {
        owner: [7u8; 32],
        source_chain_id: 1,
        dest_chain_id: 31337,
        dest_chain_addr: "0xabc".to_string(),
        dest_chain_mint_addr: "0xfeedface".to_string(),
        mint: [9u8; 32],
        amount: 10000,
        timestamp: 1750482928,
        deposit_id: 1,
    }
}

fn sibling(last: u8) -> [u8; 32] {
    let mut s = [0u8; 32];
    s[31] = last;
    s
}

fn account(seq: Option<u64>) -> CompressedAccountInfo {
    CompressedAccountInfo {
        hash: sibling(3),
        data: Some(CompressedAccountData { data: vec![], data_hash: sibling(5) }),
        seq,
    }
}

fn inclusion(leaf_index: u64, siblings: Vec<[u8; 32]>) -> MerkleProofInfo {
    MerkleProofInfo { root: sibling(2), leaf_index, hash: sibling(3), siblings }
}

#[test]
fn short_path_is_zero_padded_to_depth() {
    let ci = constructSolDepositCircuitInputs(
        account(None),
        record(),
        inclusion(6, vec![sibling(7), sibling(8)]),
    )
    .expect("must build");
    assert_eq!(ci.merkleProof.len(), TREE_LEVELS as usize);
    assert_eq!(ci.merkleProof[0], "7");
    assert_eq!(ci.merkleProof[1], "8");
    for entry in &ci.merkleProof[2..] {
        assert_eq!(entry, "0");
    }
}

#[test]
fn long_path_is_truncated_to_depth() {
    let mut siblings = Vec::new();
    for i in 0..30u8 {
        siblings.push(sibling(i + 1));
    }
    let ci = constructSolDepositCircuitInputs(account(None), record(), inclusion(6, siblings))
        .expect("must build");
    assert_eq!(ci.merkleProof.len(), 26);
    for (i, entry) in ci.merkleProof.iter().enumerate() {
        assert_eq!(entry, &(i + 1).to_string());
    }
}

#[test]
fn path_indices_decompose_the_leaf_index() {
    let ci = constructSolDepositCircuitInputs(account(None), record(), inclusion(6, vec![]))
        .expect("must build");
    assert_eq!(ci.pathIndices.len(), 26);
    assert_eq!(&ci.pathIndices[0..4], &["0", "1", "1", "0"]);
    assert_eq!(ci.leafIndex, "6");
}

#[test]
fn sequence_number_takes_precedence_for_leaf_index() {
    let ci = constructSolDepositCircuitInputs(account(Some(5)), record(), inclusion(99, vec![]))
        .expect("must build");
    assert_eq!(ci.leafIndex, "6");
    let ci = constructSolDepositCircuitInputs(account(None), record(), inclusion(99, vec![]))
        .expect("must build");
    assert_eq!(ci.leafIndex, "99");
}

#[test]
fn field_encodings_are_exact() {
    let ci = constructSolDepositCircuitInputs(account(None), record(), inclusion(6, vec![]))
        .expect("must build");
    assert_eq!(ci.stateRoot, "2");
    assert_eq!(ci.accountHash, "3");
    assert_eq!(ci.dataHash, "5");
    assert_eq!(ci.amount, "10000");
    assert_eq!(ci.destChainId, "31337");
    assert_eq!(ci.sourceChainId, "1");
    assert_eq!(ci.destChainAddr, "2748");
    // The timestamp's own encoding path: decimal digits reread as hex.
    assert_eq!(ci.timestamp, "100131154216");
    assert_eq!(ci.depositId, "1");
    let owner_field = num_bigint::BigUint::from_bytes_be(&[7u8; 32]).to_string();
    assert_eq!(ci.owner, owner_field);
    let mint_field = num_bigint::BigUint::from_bytes_be(&[9u8; 32]).to_string();
    assert_eq!(ci.mint, mint_field);
}

#[test]
fn negative_timestamp_encodes_as_zero() {
    let mut rec = record();
    rec.timestamp = -5;
    let ci = constructSolDepositCircuitInputs(account(None), rec, inclusion(6, vec![]))
        .expect("must build");
    assert_eq!(ci.timestamp, "0");
}

#[test]
fn missing_account_data_is_reported() {
    let acc = CompressedAccountInfo { hash: sibling(3), data: None, seq: None };
    let r = constructSolDepositCircuitInputs(acc, record(), inclusion(6, vec![]));
    assert_eq!(r.unwrap_err(), RelayerError::MissingAccountData);
}

#[test]
fn proving_outcomes_are_classified() {
    assert_eq!(assess_proving_outcome(true, true, true), Ok(()));
    assert_eq!(
        assess_proving_outcome(false, false, false),
        Err(RelayerError::WitnessComputationFailed)
    );
    assert_eq!(
        assess_proving_outcome(true, false, false),
        Err(RelayerError::ProofGenerationFailed)
    );
    assert_eq!(
        assess_proving_outcome(true, true, false),
        Err(RelayerError::ProofSelfCheckFailed)
    );
}

#[test]
fn deposit_then_circuit_inputs_end_to_end() {
    // Initialize the bridge, deposit 10000 units, and build circuit
    // inputs from the committed record and a synthetic inclusion proof.
    let mut state = init_bridge_state();
    assert_eq!((state.deposit_count, state.withdraw_count), (0, 0));
    let tb = init_token_bridge(1, "SrcMint11111".to_string(), 31337, "0xfeedface".to_string())
        .expect("link must initialize");
    let plan = deposit(
        &mut state,
        &tb,
        &[7u8; 32],
        &[9u8; 32],
        10000,
        31337,
        "0xabc".to_string(),
        1750482928,
        &[11u8; 32],
        &PackedAddressMerkleContext {
            address_merkle_tree_pubkey_index: 0,
            address_queue_pubkey_index: 1,
            root_index: 5,
        },
        0,
        &[22u8; 32],
    )
    .expect("deposit must succeed");
    assert_eq!(state.deposit_count, 1);
    assert_eq!(plan.record.amount, 10000);
    assert_eq!(plan.record.dest_chain_id, 31337);
    assert_eq!(plan.record.deposit_id, 1);

    // The relayer decodes the committed bytes back into the record.
    let decoded = decode_deposit_record(&plan.record_bytes).expect("committed bytes decode");
    assert_eq!(decoded.amount, 10000);
    assert_eq!(decoded.deposit_id, 1);
    assert_eq!(decoded.dest_chain_addr, "0xabc");

    let acc = CompressedAccountInfo {
        hash: sibling(3),
        data: Some(CompressedAccountData { data: plan.record_bytes.clone(), data_hash: sibling(5) }),
        seq: None,
    };
    let ci = constructSolDepositCircuitInputs(acc, decoded, inclusion(1, vec![sibling(7)]))
        .expect("must build");
    assert_eq!(ci.amount, "10000");
    assert_eq!(ci.pathIndices.len(), 26);
}
