//! Durable bridge state, per-link configuration, and the two compressed
//! record shapes that are committed to the address tree.

use vstd::prelude::*;
use vstd::utf8::encode_utf8;

verus! {

/// Chain id of the chain this bridge program runs on.
pub const SOURCE_CHAIN_ID: u32 = 1u32;

/// Longest accepted chain-address representation of a mint, in bytes.
pub const MAX_MINT_ADDR_LEN: usize = 50;

/// Longest accepted destination-chain recipient address, in bytes.
pub const MAX_CHAIN_ADDR_LEN: usize = 64;

/// Bridge-wide monotonic counters; singleton per deployment.
#[derive(Clone, Copy, Debug, PartialEq, Eq, Structural)]
pub struct BridgeState {
    pub deposit_count: u128,
    pub withdraw_count: u128,
}

/// One configured (source chain, destination chain, mint) routing triple.
#[derive(Clone, Debug)]
pub struct TokenBridge {
    pub source_chain: u32,
    pub source_chain_mint_addr: String,
    pub dest_chain: u32,
    pub dest_chain_mint_addr: String,
}

impl TokenBridge {
    /// Addresses are bounded-length chain-address representations.
    pub open spec fn wf(&self) -> bool {
        &&& encode_utf8(self.source_chain_mint_addr@).len() <= MAX_MINT_ADDR_LEN
        &&& encode_utf8(self.dest_chain_mint_addr@).len() <= MAX_MINT_ADDR_LEN
    }
}

/// Spec-level projection of a deposit record: plain field values, strings
/// as character sequences.
pub ghost struct DepositRecordV {
    pub owner: Seq<u8>,
    pub source_chain_id: u32,
    pub dest_chain_id: u32,
    pub dest_chain_addr: Seq<char>,
    pub dest_chain_mint_addr: Seq<char>,
    pub mint: Seq<u8>,
    pub amount: u64,
    pub timestamp: i64,
    pub deposit_id: u128,
}

/// Compressed deposit record, created exactly once per deposit and
/// committed to the address tree; never mutated afterwards.
///
/// In the tree commitment the `owner`, `mint` and `deposit_id` fields
/// are committed as individual hashes to bound the circuit input width;
/// the remaining fields are committed as their plain encoded values. An
/// off-chain decoder must know this split to interpret a committed
/// record.
#[derive(Clone, Debug)]
pub struct DepositRecordCompressedAccount {
    pub owner: [u8; 32],
    pub source_chain_id: u32,
    pub dest_chain_id: u32,
    pub dest_chain_addr: String,
    pub dest_chain_mint_addr: String,
    pub mint: [u8; 32],
    pub amount: u64,
    pub timestamp: i64,
    pub deposit_id: u128,
}

impl View for DepositRecordCompressedAccount {
    type V = DepositRecordV;

    open spec fn view(&self) -> DepositRecordV {
        DepositRecordV {
            owner: self.owner@,
            source_chain_id: self.source_chain_id,
            dest_chain_id: self.dest_chain_id,
            dest_chain_addr: self.dest_chain_addr@,
            dest_chain_mint_addr: self.dest_chain_mint_addr@,
            mint: self.mint@,
            amount: self.amount,
            timestamp: self.timestamp,
            deposit_id: self.deposit_id,
        }
    }
}

impl DepositRecordCompressedAccount {
    /// Amount is strictly positive and the address strings are bounded.
    pub open spec fn wf(&self) -> bool {
        &&& self.amount > 0
        &&& encode_utf8(self.dest_chain_addr@).len() <= MAX_CHAIN_ADDR_LEN
        &&& encode_utf8(self.dest_chain_mint_addr@).len() <= MAX_MINT_ADDR_LEN
    }
}

/// Spec-level projection of a withdrawal record.
pub ghost struct WithdrawalRecordV {
    pub depositer: Seq<char>,
    pub source_chain_id: u64,
    pub dest_chain_id: u64,
    pub dest_chain_addr: Seq<u8>,
    pub dest_chain_mint_addr: Seq<u8>,
    pub token_mint: Seq<char>,
    pub amount: u64,
    pub timestamp: i64,
    pub withdrawal_id: u128,
}

/// Compressed withdrawal record; same single-creation lifecycle as the
/// deposit record.
///
/// In the tree commitment the `dest_chain_addr` and
/// `dest_chain_mint_addr` keys are committed as individual hashes; the
/// remaining fields as their plain encoded values.
#[derive(Clone, Debug)]
pub struct WithdrawalRecordCompressedAccount {
    pub depositer: String,
    pub source_chain_id: u64,
    pub dest_chain_id: u64,
    pub dest_chain_addr: [u8; 32],
    pub dest_chain_mint_addr: [u8; 32],
    pub token_mint: String,
    pub amount: u64,
    pub timestamp: i64,
    pub withdrawal_id: u128,
}

impl View for WithdrawalRecordCompressedAccount {
    type V = WithdrawalRecordV;

    open spec fn view(&self) -> WithdrawalRecordV {
        WithdrawalRecordV {
            depositer: self.depositer@,
            source_chain_id: self.source_chain_id,
            dest_chain_id: self.dest_chain_id,
            dest_chain_addr: self.dest_chain_addr@,
            dest_chain_mint_addr: self.dest_chain_mint_addr@,
            token_mint: self.token_mint@,
            amount: self.amount,
            timestamp: self.timestamp,
            withdrawal_id: self.withdrawal_id,
        }
    }
}

impl WithdrawalRecordCompressedAccount {
    /// Amount is strictly positive and the strings are bounded.
    pub open spec fn wf(&self) -> bool {
        &&& self.amount > 0
        &&& encode_utf8(self.depositer@).len() <= MAX_CHAIN_ADDR_LEN
        &&& encode_utf8(self.token_mint@).len() <= MAX_MINT_ADDR_LEN
    }
}

/// A pre-staged withdrawal authorization: a proof triple with its
/// nullifier and claimed new root, keyed by withdrawal id and intended to
/// be consumed exactly once.
#[derive(Clone, Copy, Debug)]
pub struct WithdrawalProof {
    pub proof_a: [u8; 64],
    pub proof_b: [u8; 128],
    pub proof_c: [u8; 64],
    pub nullifier: [u8; 32],
    pub new_root: [u8; 32],
}

/// A compressed counter account owned by one signer.
#[derive(Clone, Copy, Debug)]
pub struct CounterCompressedAccount {
    pub owner: [u8; 32],
    pub counter: u64,
}

} // verus!
