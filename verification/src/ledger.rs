//! The bridge ledger: atomic increment-and-return over the durable
//! counters, and administrative initialization of the bridge state, a
//! token-bridge link, and a staged withdrawal proof.

use vstd::prelude::*;
use vstd::utf8::encode_utf8;
use crate::errors::ErrorCode;
use crate::state::{
    BridgeState, CounterCompressedAccount, TokenBridge, WithdrawalProof, MAX_MINT_ADDR_LEN,
};

verus! {

/// The bridge state after `n` further successful deposits.
pub open spec fn after_deposits(s: BridgeState, n: nat) -> BridgeState
    decreases n,
{
    if n == 0 {
        s
    } else {
        let prev = after_deposits(s, (n - 1) as nat);
        BridgeState { deposit_count: (prev.deposit_count + 1) as u128, ..prev }
    }
}

/// The deposit id minted by the `k`-th (1-based) of `n` successive
/// deposits started from state `s`.
pub open spec fn deposit_id_at(s: BridgeState, k: nat) -> int {
    s.deposit_count + k
}

/// After `n` successful deposits the deposit counter equals its initial
/// value plus `n`, and the `k`-th deposit was assigned id
/// `initial + k`: the ids form the gap-free, repeat-free sequence
/// `initial + 1, ..., initial + n`. The withdraw counter is untouched.
pub proof fn lemma_deposit_counter_sequence(s: BridgeState, n: nat)
    requires
        s.deposit_count + n <= u128::MAX,
    ensures
        after_deposits(s, n).deposit_count == s.deposit_count + n,
        after_deposits(s, n).withdraw_count == s.withdraw_count,
        forall|k: nat|
            1 <= k <= n ==> #[trigger] deposit_id_at(s, k) == after_deposits(
                s,
                (k - 1) as nat,
            ).deposit_count + 1,
    decreases n,
{
    if n > 0 {
        lemma_deposit_counter_sequence(s, (n - 1) as nat);
    }
}

/// Initialize the bridge: both counters start at zero.
pub fn init_bridge_state() -> (s: BridgeState)
    ensures
        s.deposit_count == 0,
        s.withdraw_count == 0,
{
    BridgeState { deposit_count: 0, withdraw_count: 0 }
}

/// Atomically increment the deposit counter and return the new value,
/// which is the id of the deposit being processed. Fails with
/// `CounterOverflow` if the increment would wrap; the state is then
/// unchanged.
pub fn next_deposit_id(state: &mut BridgeState) -> (r: Result<u128, ErrorCode>)
    ensures
        match r {
            Ok(id) => {
                &&& old(state).deposit_count < u128::MAX
                &&& id == old(state).deposit_count + 1
                &&& final(state).deposit_count == old(state).deposit_count + 1
                &&& final(state).withdraw_count == old(state).withdraw_count
                &&& *final(state) == after_deposits(*old(state), 1)
            },
            Err(e) => {
                &&& e == ErrorCode::CounterOverflow
                &&& old(state).deposit_count == u128::MAX
                &&& *final(state) == *old(state)
            },
        },
{
    if state.deposit_count == u128::MAX {
        return Err(ErrorCode::CounterOverflow);
    }
    state.deposit_count = state.deposit_count + 1;
    proof {
        reveal_with_fuel(after_deposits, 2);
    }
    Ok(state.deposit_count)
}

/// Atomically increment the withdraw counter and return the new value.
/// Fails with `CounterOverflow` if the increment would wrap; the state is
/// then unchanged.
pub fn next_withdraw_id(state: &mut BridgeState) -> (r: Result<u128, ErrorCode>)
    ensures
        match r {
            Ok(id) => {
                &&& old(state).withdraw_count < u128::MAX
                &&& id == old(state).withdraw_count + 1
                &&& final(state).withdraw_count == old(state).withdraw_count + 1
                &&& final(state).deposit_count == old(state).deposit_count
            },
            Err(e) => {
                &&& e == ErrorCode::CounterOverflow
                &&& old(state).withdraw_count == u128::MAX
                &&& *final(state) == *old(state)
            },
        },
{
    if state.withdraw_count == u128::MAX {
        return Err(ErrorCode::CounterOverflow);
    }
    state.withdraw_count = state.withdraw_count + 1;
    Ok(state.withdraw_count)
}

/// Register a (source chain, destination chain, mint) link. Rejects with
/// `InvalidArgs` exactly when one of the chain-address strings is over
/// its bound, so a constructed link is always well-formed.
pub fn init_token_bridge(
    source_chain: u32,
    source_chain_mint_addr: String,
    dest_chain: u32,
    dest_chain_mint_addr: String,
) -> (r: Result<TokenBridge, ErrorCode>)
    ensures
        match r {
            Ok(tb) => {
                &&& tb.wf()
                &&& tb.source_chain == source_chain
                &&& tb.source_chain_mint_addr@ == source_chain_mint_addr@
                &&& tb.dest_chain == dest_chain
                &&& tb.dest_chain_mint_addr@ == dest_chain_mint_addr@
            },
            Err(e) => {
                &&& e == ErrorCode::InvalidArgs
                &&& (encode_utf8(source_chain_mint_addr@).len() > MAX_MINT_ADDR_LEN || encode_utf8(
                    dest_chain_mint_addr@,
                ).len() > MAX_MINT_ADDR_LEN)
            },
        },
{
    if source_chain_mint_addr.as_str().as_bytes().len() > MAX_MINT_ADDR_LEN
        || dest_chain_mint_addr.as_str().as_bytes().len() > MAX_MINT_ADDR_LEN {
        return Err(ErrorCode::InvalidArgs);
    }
    Ok(
        TokenBridge {
            source_chain,
            source_chain_mint_addr,
            dest_chain,
            dest_chain_mint_addr,
        },
    )
}

/// Stage a withdrawal authorization: persist the proof triple together
/// with its nullifier and claimed new root.
pub fn init_withdrawal_proof(
    proof_a: [u8; 64],
    proof_b: [u8; 128],
    proof_c: [u8; 64],
    nullifier: [u8; 32],
    new_root: [u8; 32],
) -> (r: WithdrawalProof)
    ensures
        r.proof_a@ == proof_a@,
        r.proof_b@ == proof_b@,
        r.proof_c@ == proof_c@,
        r.nullifier@ == nullifier@,
        r.new_root@ == new_root@,
{
    WithdrawalProof { proof_a, proof_b, proof_c, nullifier, new_root }
}

impl CounterCompressedAccount {
    /// A fresh counter account owned by `owner`, starting at zero.
    pub fn new(owner: [u8; 32]) -> (r: CounterCompressedAccount)
        ensures
            r.owner@ == owner@,
            r.counter == 0,
    {
        CounterCompressedAccount { owner, counter: 0 }
    }

    /// Advance the counter by exactly one.
    pub fn increment(&mut self)
        requires
            old(self).counter < u64::MAX,
        ensures
            final(self).counter == old(self).counter + 1,
            final(self).owner@ == old(self).owner@,
    {
        self.counter = self.counter + 1;
    }
}

} // verus!
