//! The relayer-side circuit input builder: one decoded deposit record
//! plus its Merkle inclusion proof become the exact ordered set of
//! decimal-string field elements the proving circuit expects, with the
//! sibling path zero-padded or truncated to the circuit's fixed depth
//! and the path indices derived as the little-endian bits of the leaf
//! index.

#![allow(non_snake_case)]

use vstd::prelude::*;
use vstd::utf8::encode_utf8;
use crate::errors::RelayerError;
use crate::field_encode::{
    be_bytes_val, bit_at, computePathIndices, dec_bytes, i64_to_decimal_string,
    lemma_dec_bytes_ascii, lemma_dec_bytes_nonempty, parse_decimal_string_as_hex,
    biguint_decimal_from_bytes_be, signed_dec_bytes, string_to_field_bytes, stringToField,
    strip_hex_prefix, all_hex_digits, timestamp_field_bytes, u128_to_decimal_string,
    u32_to_decimal_string, u64_to_decimal_string,
};
use crate::state::DepositRecordCompressedAccount;

verus! {

/// The circuit's compiled tree depth; the sibling path and the path
/// indices both have exactly this many entries.
pub const TREE_LEVELS: u32 = 26;

/// The payload the indexer reports for a compressed account: the raw
/// record bytes and their hash.
#[derive(Clone, Debug)]
pub struct CompressedAccountData {
    pub data: Vec<u8>,
    pub data_hash: [u8; 32],
}

/// One compressed account as the indexer reports it: its leaf hash, its
/// payload if any, and the tree's running sequence number if known.
#[derive(Clone, Debug)]
pub struct CompressedAccountInfo {
    pub hash: [u8; 32],
    pub data: Option<CompressedAccountData>,
    pub seq: Option<u64>,
}

/// A Merkle inclusion proof as the indexer reports it.
#[derive(Clone, Debug)]
pub struct MerkleProofInfo {
    pub root: [u8; 32],
    pub leaf_index: u64,
    pub hash: [u8; 32],
    pub siblings: Vec<[u8; 32]>,
}

/// The field-element projection of one deposit record and its inclusion
/// proof, every value a decimal string. The first four fields are the
/// circuit's public inputs; the rest are private.
#[derive(Clone, Debug)]
pub struct SolDepositProofCircuitInputs {
    pub stateRoot: String,
    pub amount: String,
    pub destChainId: String,
    pub destChainAddr: String,
    pub accountHash: String,
    pub leafIndex: String,
    pub merkleProof: Vec<String>,
    pub pathIndices: Vec<String>,
    pub owner: String,
    pub sourceChainId: String,
    pub mint: String,
    pub timestamp: String,
    pub depositId: String,
    pub dataHash: String,
}

/// The leaf index the circuit is given: the tree's running sequence
/// number advanced by one when the indexer reports it, else the index
/// from the proof.
pub open spec fn leaf_index_for_circuit(acc_seq: Option<u64>, proof_leaf_index: u64) -> int {
    match acc_seq {
        Some(s) => s + 1,
        None => proof_leaf_index as int,
    }
}

/// Build the circuit inputs from a decoded deposit record and its
/// inclusion proof. Fails with `MissingAccountData` exactly when the
/// indexer reported no payload; every produced field element is pinned
/// to its source value.
pub fn constructSolDepositCircuitInputs(
    account_data: CompressedAccountInfo,
    deposit_record: DepositRecordCompressedAccount,
    merkle_proof: MerkleProofInfo,
) -> (r: Result<SolDepositProofCircuitInputs, RelayerError>)
    requires
        account_data.seq matches Some(s) ==> s < u64::MAX,
        ({
            let b = encode_utf8(deposit_record.dest_chain_addr@);
            (b.len() >= 2 && b[0] == 0x30 && b[1] == 0x78) ==> all_hex_digits(strip_hex_prefix(b))
        }),
    ensures
        match r {
            Ok(ci) => {
                &&& account_data.data is Some
                &&& encode_utf8(ci.stateRoot@) == dec_bytes(be_bytes_val(merkle_proof.root@))
                &&& encode_utf8(ci.amount@) == dec_bytes(deposit_record.amount as nat)
                &&& encode_utf8(ci.destChainId@) == dec_bytes(deposit_record.dest_chain_id as nat)
                &&& encode_utf8(ci.destChainAddr@) == string_to_field_bytes(
                    deposit_record.dest_chain_addr@,
                )
                &&& encode_utf8(ci.accountHash@) == dec_bytes(be_bytes_val(merkle_proof.hash@))
                &&& encode_utf8(ci.leafIndex@) == dec_bytes(
                    leaf_index_for_circuit(account_data.seq, merkle_proof.leaf_index) as nat,
                )
                &&& ci.merkleProof@.len() == TREE_LEVELS
                &&& (forall|i: int|
                    0 <= i < TREE_LEVELS ==> encode_utf8(#[trigger] ci.merkleProof@[i]@) == (if i
                        < merkle_proof.siblings@.len() {
                        dec_bytes(be_bytes_val(merkle_proof.siblings@[i]@))
                    } else {
                        dec_bytes(0)
                    }))
                &&& ci.pathIndices@.len() == TREE_LEVELS
                &&& (forall|i: int|
                    0 <= i < TREE_LEVELS ==> encode_utf8(#[trigger] ci.pathIndices@[i]@)
                        == dec_bytes(
                        bit_at(
                            leaf_index_for_circuit(account_data.seq, merkle_proof.leaf_index) as nat,
                            i as nat,
                        ),
                    ))
                &&& encode_utf8(ci.owner@) == dec_bytes(be_bytes_val(deposit_record.owner@))
                &&& encode_utf8(ci.sourceChainId@) == dec_bytes(
                    deposit_record.source_chain_id as nat,
                )
                &&& encode_utf8(ci.mint@) == dec_bytes(be_bytes_val(deposit_record.mint@))
                &&& encode_utf8(ci.timestamp@) == timestamp_field_bytes(deposit_record.timestamp)
                &&& encode_utf8(ci.depositId@) == dec_bytes(deposit_record.deposit_id as nat)
                &&& encode_utf8(ci.dataHash@) == dec_bytes(
                    be_bytes_val(account_data.data->Some_0.data_hash@),
                )
            },
            Err(e) => {
                &&& e == RelayerError::MissingAccountData
                &&& account_data.data is None
            },
        },
{
    let data_hash: [u8; 32] = match &account_data.data {
        Some(d) => d.data_hash,
        None => {
            return Err(RelayerError::MissingAccountData);
        },
    };
    let leaf_index: u64 = match account_data.seq {
        Some(s) => s + 1,
        None => merkle_proof.leaf_index,
    };

    let mut field_strs: Vec<String> = Vec::new();
    let mut i: usize = 0;
    let sib_len = merkle_proof.siblings.len();
    while i < sib_len && i < 26
        invariant
            i <= sib_len == merkle_proof.siblings@.len(),
            i <= 26,
            field_strs@.len() == i,
            forall|j: int|
                0 <= j < i ==> encode_utf8(#[trigger] field_strs@[j]@) == dec_bytes(
                    be_bytes_val(merkle_proof.siblings@[j]@),
                ),
        decreases 26 - i,
    {
        field_strs.push(biguint_decimal_from_bytes_be(merkle_proof.siblings[i].as_slice()));
        i = i + 1;
    }
    while i < 26
        invariant
            i <= 26,
            field_strs@.len() == i,
            i >= sib_len || i >= 26,
            sib_len == merkle_proof.siblings@.len(),
            forall|j: int|
                0 <= j < i ==> encode_utf8(#[trigger] field_strs@[j]@) == (if j
                    < merkle_proof.siblings@.len() {
                    dec_bytes(be_bytes_val(merkle_proof.siblings@[j]@))
                } else {
                    dec_bytes(0)
                }),
        decreases 26 - i,
    {
        field_strs.push(u128_to_decimal_string(0));
        i = i + 1;
    }

    let timestamp_str = i64_to_decimal_string(deposit_record.timestamp);
    proof {
        let ts = deposit_record.timestamp;
        if ts >= 0 {
            lemma_dec_bytes_ascii(ts as nat);
            lemma_dec_bytes_nonempty(ts as nat);
        } else {
            assert(signed_dec_bytes(ts as int)[0] == 0x2du8);
        }
    }
    let timestamp_field = parse_decimal_string_as_hex(timestamp_str.as_str());

    let ci = SolDepositProofCircuitInputs {
        stateRoot: biguint_decimal_from_bytes_be(merkle_proof.root.as_slice()),
        amount: u64_to_decimal_string(deposit_record.amount),
        destChainId: u32_to_decimal_string(deposit_record.dest_chain_id),
        destChainAddr: stringToField(deposit_record.dest_chain_addr.clone()),
        accountHash: biguint_decimal_from_bytes_be(merkle_proof.hash.as_slice()),
        leafIndex: u64_to_decimal_string(leaf_index),
        merkleProof: field_strs,
        pathIndices: computePathIndices(leaf_index, TREE_LEVELS),
        owner: biguint_decimal_from_bytes_be(deposit_record.owner.as_slice()),
        sourceChainId: u32_to_decimal_string(deposit_record.source_chain_id),
        mint: biguint_decimal_from_bytes_be(deposit_record.mint.as_slice()),
        timestamp: timestamp_field,
        depositId: u128_to_decimal_string(deposit_record.deposit_id),
        dataHash: biguint_decimal_from_bytes_be(data_hash.as_slice()),
    };
    Ok(ci)
}

/// Classify one proving-pipeline run: the witness computation, the proof
/// construction and the immediate self-verification pass must all
/// succeed, and a self-check failure is surfaced as its own error, never
/// discarded.
pub fn assess_proving_outcome(
    witness_ok: bool,
    proof_generated: bool,
    self_check_passed: bool,
) -> (r: Result<(), RelayerError>)
    ensures
        r is Ok <==> (witness_ok && proof_generated && self_check_passed),
        (r matches Err(e) && e == RelayerError::WitnessComputationFailed) <==> !witness_ok,
        (r matches Err(e) && e == RelayerError::ProofGenerationFailed) <==> (witness_ok
            && !proof_generated),
        (r matches Err(e) && e == RelayerError::ProofSelfCheckFailed) <==> (witness_ok
            && proof_generated && !self_check_passed),
{
    if !witness_ok {
        Err(RelayerError::WitnessComputationFailed)
    } else if !proof_generated {
        Err(RelayerError::ProofGenerationFailed)
    } else if !self_check_passed {
        Err(RelayerError::ProofSelfCheckFailed)
    } else {
        Ok(())
    }
}

} // verus!
