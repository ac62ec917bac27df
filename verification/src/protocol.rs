//! The deposit and withdraw protocol state machines. Each entry point
//! validates its inputs, advances the matching counter, and assembles
//! the complete, byte-exact commitment plan (record, canonical encoding,
//! derived address, packed new-address parameters, custody movement)
//! that the host transaction submits as one atomic unit. A failed call
//! leaves every piece of bridge state untouched and releases no custody.

use vstd::prelude::*;
use vstd::utf8::encode_utf8;
use crate::address::{
    derive_counter_address, derive_deposit_address, derive_withdrawal_address,
    deposit_address_seeds, counter_address_seeds, derived_address_of, derived_seed_of,
    withdrawal_address_seeds,
};
use crate::codec::{
    enc_deposit, enc_withdrawal, encode_deposit_record, encode_withdrawal_record,
};
use crate::errors::ErrorCode;
use crate::ledger::{next_deposit_id, next_withdraw_id};
use crate::state::{
    BridgeState, CounterCompressedAccount, DepositRecordCompressedAccount, DepositRecordV,
    TokenBridge, WithdrawalProof, WithdrawalRecordCompressedAccount, WithdrawalRecordV,
    MAX_CHAIN_ADDR_LEN, SOURCE_CHAIN_ID,
};
use crate::zk::{groth16_pairing_accepts, groth16_verifier, inputs_view, vk_view, VerifyingKey};

verus! {

/// Where the new address lives: indices of the address tree and queue
/// accounts, and the root to prove non-existence against.
#[derive(Clone, Copy, Debug, PartialEq, Eq, Structural)]
pub struct PackedAddressMerkleContext {
    pub address_merkle_tree_pubkey_index: u8,
    pub address_queue_pubkey_index: u8,
    pub root_index: u16,
}

/// The packed parameters the tree service needs to create one address.
#[derive(Clone, Copy, Debug)]
pub struct NewAddressParamsPacked {
    pub seed: [u8; 32],
    pub address_queue_account_index: u8,
    pub address_merkle_tree_root_index: u16,
    pub address_merkle_tree_account_index: u8,
}

/// Pack an address seed with its tree context.
pub fn pack_new_address_params(
    seed: [u8; 32],
    merkle_ctx: &PackedAddressMerkleContext,
) -> (r: NewAddressParamsPacked)
    ensures
        r.seed@ == seed@,
        r.address_queue_account_index == merkle_ctx.address_queue_pubkey_index,
        r.address_merkle_tree_root_index == merkle_ctx.root_index,
        r.address_merkle_tree_account_index == merkle_ctx.address_merkle_tree_pubkey_index,
{
    NewAddressParamsPacked {
        seed,
        address_queue_account_index: merkle_ctx.address_queue_pubkey_index,
        address_merkle_tree_root_index: merkle_ctx.root_index,
        address_merkle_tree_account_index: merkle_ctx.address_merkle_tree_pubkey_index,
    }
}

/// One inbound custody movement: `amount` of `mint` from the depositor
/// into the vault.
#[derive(Clone, Copy, Debug)]
pub struct CustodyTransfer {
    pub mint: [u8; 32],
    pub depositor: [u8; 32],
    pub amount: u64,
}

/// One outbound custody movement: `amount` of `mint` from the vault to
/// the recipient, under the vault's own derived signing authority.
#[derive(Clone, Copy, Debug)]
pub struct CustodyRelease {
    pub mint: [u8; 32],
    pub recipient: [u8; 32],
    pub amount: u64,
}

/// Everything one deposit commits: the record, its canonical bytes, the
/// derived address with its creation parameters, and the custody
/// movement — submitted by the host as a single atomic transaction.
#[derive(Debug)]
pub struct DepositPlan {
    pub record: DepositRecordCompressedAccount,
    pub record_bytes: Vec<u8>,
    pub address: [u8; 32],
    pub new_address_params: NewAddressParamsPacked,
    pub output_merkle_tree_index: u8,
    pub custody: CustodyTransfer,
}

/// Process a deposit: validate the amount and recipient address,
/// advance the deposit counter, and assemble the commitment plan. On any
/// error the bridge state is unchanged and no custody moves.
pub fn deposit(
    state: &mut BridgeState,
    token_bridge: &TokenBridge,
    depositor: &[u8; 32],
    mint: &[u8; 32],
    amount: u64,
    dest_chain_id: u32,
    dest_chain_addr: String,
    timestamp: i64,
    tree_pubkey: &[u8; 32],
    merkle_ctx: &PackedAddressMerkleContext,
    output_merkle_tree_index: u8,
    program_id: &[u8; 32],
) -> (r: Result<DepositPlan, ErrorCode>)
    requires
        token_bridge.wf(),
    ensures
        match r {
            Ok(plan) => {
                &&& amount > 0
                &&& encode_utf8(dest_chain_addr@).len() <= MAX_CHAIN_ADDR_LEN
                &&& old(state).deposit_count < u128::MAX
                &&& final(state).deposit_count == old(state).deposit_count + 1
                &&& final(state).withdraw_count == old(state).withdraw_count
                &&& plan.record.wf()
                &&& plan.record@ == (DepositRecordV {
                    owner: depositor@,
                    source_chain_id: SOURCE_CHAIN_ID,
                    dest_chain_id: dest_chain_id,
                    dest_chain_addr: dest_chain_addr@,
                    dest_chain_mint_addr: token_bridge.dest_chain_mint_addr@,
                    mint: mint@,
                    amount: amount,
                    timestamp: timestamp,
                    deposit_id: (old(state).deposit_count + 1) as u128,
                })
                &&& plan.record_bytes@ == enc_deposit(plan.record@)
                &&& plan.address@ == derived_address_of(
                    deposit_address_seeds(depositor@, plan.record.deposit_id),
                    tree_pubkey@,
                    program_id@,
                )
                &&& plan.new_address_params.seed@ == derived_seed_of(
                    deposit_address_seeds(depositor@, plan.record.deposit_id),
                    program_id@,
                )
                &&& plan.new_address_params.address_queue_account_index
                    == merkle_ctx.address_queue_pubkey_index
                &&& plan.new_address_params.address_merkle_tree_root_index == merkle_ctx.root_index
                &&& plan.new_address_params.address_merkle_tree_account_index
                    == merkle_ctx.address_merkle_tree_pubkey_index
                &&& plan.output_merkle_tree_index == output_merkle_tree_index
                &&& plan.custody.mint@ == mint@
                &&& plan.custody.depositor@ == depositor@
                &&& plan.custody.amount == amount
            },
            Err(e) => {
                &&& *final(state) == *old(state)
                &&& (amount == 0 || encode_utf8(dest_chain_addr@).len() > MAX_CHAIN_ADDR_LEN || old(
                    state,
                ).deposit_count == u128::MAX)
                &&& (e == ErrorCode::DepositAmountShouldBeGreaterThanZero <==> amount == 0)
                &&& (e == ErrorCode::InvalidArgs <==> (amount > 0 && encode_utf8(
                    dest_chain_addr@,
                ).len() > MAX_CHAIN_ADDR_LEN))
                &&& (e == ErrorCode::CounterOverflow <==> (amount > 0 && encode_utf8(
                    dest_chain_addr@,
                ).len() <= MAX_CHAIN_ADDR_LEN && old(state).deposit_count == u128::MAX))
            },
        },
{
    if amount == 0 {
        return Err(ErrorCode::DepositAmountShouldBeGreaterThanZero);
    }
    if dest_chain_addr.as_str().as_bytes().len() > MAX_CHAIN_ADDR_LEN {
        return Err(ErrorCode::InvalidArgs);
    }
    let deposit_id = match next_deposit_id(state) {
        Ok(id) => id,
        Err(e) => {
            return Err(e);
        },
    };
    let record = DepositRecordCompressedAccount {
        owner: *depositor,
        source_chain_id: SOURCE_CHAIN_ID,
        dest_chain_id,
        dest_chain_addr,
        dest_chain_mint_addr: token_bridge.dest_chain_mint_addr.clone(),
        mint: *mint,
        amount,
        timestamp,
        deposit_id,
    };
    let record_bytes = encode_deposit_record(&record);
    let (address, seed) = derive_deposit_address(depositor, deposit_id, tree_pubkey, program_id);
    let new_address_params = pack_new_address_params(seed, merkle_ctx);
    Ok(
        DepositPlan {
            record,
            record_bytes,
            address,
            new_address_params,
            output_merkle_tree_index,
            custody: CustodyTransfer { mint: *mint, depositor: *depositor, amount },
        },
    )
}

/// The set of nullifiers already consumed by past withdrawals; the
/// durable double-spend gate.
pub struct NullifierSet {
    entries: Vec<[u8; 32]>,
}

impl NullifierSet {
    /// Whether `n` was already consumed.
    pub closed spec fn spec_contains(&self, n: Seq<u8>) -> bool {
        exists|i: int| 0 <= i < self.entries@.len() && self.entries@[i]@ == n
    }

    /// An empty set: no nullifier has been consumed yet.
    pub fn new() -> (r: NullifierSet)
        ensures
            forall|n: Seq<u8>| !r.spec_contains(n),
    {
        NullifierSet { entries: Vec::new() }
    }

    /// Membership test.
    pub fn contains(&self, n: &[u8; 32]) -> (r: bool)
        ensures
            r == self.spec_contains(n@),
    {
        let mut i: usize = 0;
        let len = self.entries.len();
        while i < len
            invariant
                i <= len == self.entries@.len(),
                forall|j: int| 0 <= j < i ==> self.entries@[j]@ != n@,
            decreases len - i,
        {
            let mut k: usize = 0;
            let mut same = true;
            while k < 32
                invariant
                    k <= 32,
                    i < self.entries@.len(),
                    same ==> forall|m: int|
                        0 <= m < k ==> self.entries@[i as int]@[m] == n@[m],
                    !same ==> self.entries@[i as int]@ != n@,
                decreases 32 - k,
            {
                if self.entries[i][k] != n[k] {
                    proof {
                        assert(self.entries@[i as int]@[k as int] != n@[k as int]);
                    }
                    same = false;
                }
                k = k + 1;
            }
            if same {
                proof {
                    assert(self.entries@[i as int]@ =~= n@);
                }
                return true;
            }
            i = i + 1;
        }
        false
    }

    /// Record `n` as consumed.
    pub fn insert(&mut self, n: [u8; 32])
        ensures
            final(self).spec_contains(n@),
            forall|m: Seq<u8>|
                #[trigger] final(self).spec_contains(m) <==> (old(self).spec_contains(m) || m
                    == n@),
    {
        self.entries.push(n);
        proof {
            assert forall|m: Seq<u8>| #[trigger]
                self.spec_contains(m) <==> (old(self).spec_contains(m) || m == n@) by {
                if old(self).spec_contains(m) {
                    let i = choose|i: int|
                        0 <= i < old(self).entries@.len() && old(self).entries@[i]@ == m;
                    assert(self.entries@[i]@ == m);
                }
                if m == n@ {
                    assert(self.entries@[self.entries@.len() - 1]@ == m);
                }
                if self.spec_contains(m) {
                    let i = choose|i: int| 0 <= i < self.entries@.len() && self.entries@[i]@ == m;
                    if i < self.entries@.len() - 1 {
                        assert(old(self).entries@[i]@ == m);
                    }
                }
            }
        }
    }
}

/// Everything one withdrawal commits, including the custody release
/// that exists only once authorization has passed.
#[derive(Debug)]
pub struct WithdrawalPlan {
    pub record: WithdrawalRecordCompressedAccount,
    pub record_bytes: Vec<u8>,
    pub address: [u8; 32],
    pub new_address_params: NewAddressParamsPacked,
    pub output_merkle_tree_index: u8,
    pub custody: CustodyRelease,
}

/// Whether the staged proof's pairing check passes for its nullifier and
/// claimed new root under `vk`.
pub open spec fn staged_proof_accepted(staged: &WithdrawalProof, vk: &VerifyingKey) -> bool {
    groth16_pairing_accepts(
        staged.proof_a@,
        staged.proof_b@,
        staged.proof_c@,
        seq![staged.nullifier@, staged.new_root@],
        vk_view(vk),
    )
}

/// Process a withdrawal: validate the amount, check the nullifier has
/// never been consumed, verify the staged authorization proof, advance
/// the withdraw counter, and assemble the commitment plan. The custody
/// release is part of the returned plan, so authorization always
/// precedes release; on any error the bridge state and the nullifier
/// set are unchanged and no custody moves.
pub fn withdraw(
    state: &mut BridgeState,
    nullifiers: &mut NullifierSet,
    token_bridge: &TokenBridge,
    staged: &WithdrawalProof,
    vk: &VerifyingKey,
    amount: u64,
    withdraw_addr: &[u8; 32],
    mint: &[u8; 32],
    timestamp: i64,
    tree_pubkey: &[u8; 32],
    merkle_ctx: &PackedAddressMerkleContext,
    output_merkle_tree_index: u8,
    program_id: &[u8; 32],
) -> (r: Result<WithdrawalPlan, ErrorCode>)
    requires
        token_bridge.wf(),
    ensures
        match r {
            Ok(plan) => {
                &&& amount > 0
                &&& !old(nullifiers).spec_contains(staged.nullifier@)
                &&& vk.vk_ic@.len() == 3
                &&& staged_proof_accepted(staged, vk)
                &&& old(state).withdraw_count < u128::MAX
                &&& final(state).withdraw_count == old(state).withdraw_count + 1
                &&& final(state).deposit_count == old(state).deposit_count
                &&& final(nullifiers).spec_contains(staged.nullifier@)
                &&& (forall|m: Seq<u8>|
                    #[trigger] final(nullifiers).spec_contains(m) <==> (old(
                        nullifiers,
                    ).spec_contains(m) || m == staged.nullifier@))
                &&& plan.record.wf()
                &&& plan.record@ == (WithdrawalRecordV {
                    depositer: Seq::<char>::empty(),
                    source_chain_id: token_bridge.source_chain as u64,
                    dest_chain_id: SOURCE_CHAIN_ID as u64,
                    dest_chain_addr: withdraw_addr@,
                    dest_chain_mint_addr: mint@,
                    token_mint: token_bridge.source_chain_mint_addr@,
                    amount: amount,
                    timestamp: timestamp,
                    withdrawal_id: (old(state).withdraw_count + 1) as u128,
                })
                &&& plan.record_bytes@ == enc_withdrawal(plan.record@)
                &&& plan.address@ == derived_address_of(
                    withdrawal_address_seeds(withdraw_addr@, plan.record.withdrawal_id),
                    tree_pubkey@,
                    program_id@,
                )
                &&& plan.new_address_params.seed@ == derived_seed_of(
                    withdrawal_address_seeds(withdraw_addr@, plan.record.withdrawal_id),
                    program_id@,
                )
                &&& plan.new_address_params.address_queue_account_index
                    == merkle_ctx.address_queue_pubkey_index
                &&& plan.new_address_params.address_merkle_tree_root_index == merkle_ctx.root_index
                &&& plan.new_address_params.address_merkle_tree_account_index
                    == merkle_ctx.address_merkle_tree_pubkey_index
                &&& plan.output_merkle_tree_index == output_merkle_tree_index
                &&& plan.custody.mint@ == mint@
                &&& plan.custody.recipient@ == withdraw_addr@
                &&& plan.custody.amount == amount
            },
            Err(e) => {
                &&& *final(state) == *old(state)
                &&& *final(nullifiers) == *old(nullifiers)
                &&& (amount == 0 || old(nullifiers).spec_contains(staged.nullifier@)
                    || vk.vk_ic@.len() != 3 || !staged_proof_accepted(staged, vk) || old(
                    state,
                ).withdraw_count == u128::MAX)
                &&& (e == ErrorCode::WithdrawAmountShouldBeGreaterThanZero <==> amount == 0)
                &&& (e == ErrorCode::NullifierAlreadyUsed <==> (amount > 0 && old(
                    nullifiers,
                ).spec_contains(staged.nullifier@)))
                &&& (e == ErrorCode::InvalidProofData <==> (amount > 0 && !old(
                    nullifiers,
                ).spec_contains(staged.nullifier@) && vk.vk_ic@.len() != 3))
                &&& (e == ErrorCode::Groth16VerificationFailed <==> (amount > 0 && !old(
                    nullifiers,
                ).spec_contains(staged.nullifier@) && vk.vk_ic@.len() == 3
                    && !staged_proof_accepted(staged, vk)))
                &&& (e == ErrorCode::CounterOverflow <==> (amount > 0 && !old(
                    nullifiers,
                ).spec_contains(staged.nullifier@) && vk.vk_ic@.len() == 3
                    && staged_proof_accepted(staged, vk) && old(state).withdraw_count
                    == u128::MAX))
            },
        },
{
    if amount == 0 {
        return Err(ErrorCode::WithdrawAmountShouldBeGreaterThanZero);
    }
    if nullifiers.contains(&staged.nullifier) {
        return Err(ErrorCode::NullifierAlreadyUsed);
    }
    let public_inputs: [[u8; 32]; 2] = [staged.nullifier, staged.new_root];
    proof {
        assert(inputs_view(public_inputs) =~= seq![staged.nullifier@, staged.new_root@]);
    }
    match groth16_verifier::<2>(staged.proof_a, staged.proof_b, staged.proof_c, &public_inputs, vk)
        {
        Ok(()) => {},
        Err(e) => {
            return Err(e);
        },
    }
    let withdrawal_id = match next_withdraw_id(state) {
        Ok(id) => id,
        Err(e) => {
            return Err(e);
        },
    };
    nullifiers.insert(staged.nullifier);
    let record = WithdrawalRecordCompressedAccount {
        depositer: String::new(),
        source_chain_id: token_bridge.source_chain as u64,
        dest_chain_id: SOURCE_CHAIN_ID as u64,
        dest_chain_addr: *withdraw_addr,
        dest_chain_mint_addr: *mint,
        token_mint: token_bridge.source_chain_mint_addr.clone(),
        amount,
        timestamp,
        withdrawal_id,
    };
    proof {
        assert(encode_utf8(Seq::<char>::empty()).len() == 0);
    }
    let record_bytes = encode_withdrawal_record(&record);
    let (address, seed) = derive_withdrawal_address(
        withdraw_addr,
        withdrawal_id,
        tree_pubkey,
        program_id,
    );
    let new_address_params = pack_new_address_params(seed, merkle_ctx);
    Ok(
        WithdrawalPlan {
            record,
            record_bytes,
            address,
            new_address_params,
            output_merkle_tree_index,
            custody: CustodyRelease { mint: *mint, recipient: *withdraw_addr, amount },
        },
    )
}

/// Everything the creation of a fresh counter account commits.
pub struct CounterPlan {
    pub counter: CounterCompressedAccount,
    pub address: [u8; 32],
    pub new_address_params: NewAddressParamsPacked,
    pub output_merkle_tree_index: u8,
}

/// Create a fresh counter account for `owner`: derive its address from
/// the `counter` domain and the owner's key, and start the count at
/// zero.
pub fn create_counter(
    owner: &[u8; 32],
    tree_pubkey: &[u8; 32],
    merkle_ctx: &PackedAddressMerkleContext,
    output_merkle_tree_index: u8,
    program_id: &[u8; 32],
) -> (r: CounterPlan)
    ensures
        r.counter.owner@ == owner@,
        r.counter.counter == 0,
        r.address@ == derived_address_of(counter_address_seeds(owner@), tree_pubkey@, program_id@),
        r.new_address_params.seed@ == derived_seed_of(counter_address_seeds(owner@), program_id@),
        r.new_address_params.address_queue_account_index == merkle_ctx.address_queue_pubkey_index,
        r.new_address_params.address_merkle_tree_root_index == merkle_ctx.root_index,
        r.new_address_params.address_merkle_tree_account_index
            == merkle_ctx.address_merkle_tree_pubkey_index,
        r.output_merkle_tree_index == output_merkle_tree_index,
{
    let counter = CounterCompressedAccount::new(*owner);
    let (address, seed) = derive_counter_address(owner, tree_pubkey, program_id);
    let new_address_params = pack_new_address_params(seed, merkle_ctx);
    CounterPlan { counter, address, new_address_params, output_merkle_tree_index }
}

/// Rebuild a counter account at its current value and advance it by
/// one, as the increment instruction does.
pub fn increment_counter(owner: &[u8; 32], counter_value: u64) -> (r: CounterCompressedAccount)
    requires
        counter_value < u64::MAX,
    ensures
        r.owner@ == owner@,
        r.counter == counter_value + 1,
{
    let mut counter = CounterCompressedAccount { owner: *owner, counter: counter_value };
    counter.increment();
    counter
}

} // verus!
