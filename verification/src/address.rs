//! Deterministic compressed-account address derivation: a domain tag, a
//! subject key and a sequence number are combined with the program's own
//! identity and hashed into a unique address within one address tree.
//!
//! The hash itself is the outside collaborator's; what this module pins
//! down is exactly which seed material enters it, that the same triple
//! always yields the same address, and that distinct triples yield
//! distinct seed material.

use vstd::prelude::*;
use vstd::bytes::{spec_u128_from_le_bytes, spec_u128_to_le_bytes, u128_to_le_bytes};
use vstd::slice::slice_to_vec;

verus! {

/// The address that the tree-scoped derivation assigns to the given seed
/// slices under the given program identity; a pure function of its
/// arguments.
pub uninterp spec fn derived_address_of(
    seeds: Seq<Seq<u8>>,
    tree_pubkey: Seq<u8>,
    program_id: Seq<u8>,
) -> Seq<u8>;

/// The pre-hash address seed for the given seed slices under the given
/// program identity; the material used to prove non-existence before
/// creation.
pub uninterp spec fn derived_seed_of(seeds: Seq<Seq<u8>>, program_id: Seq<u8>) -> Seq<u8>;

/// Relies on `light_sdk::address::v1::derive_address` with three seed
/// slices: the result is a pure function of the seeds, the address-tree
/// key and the program id, 32 bytes of address and 32 bytes of seed.
#[verifier::external_body]
fn derive_address_raw3(
    seed_a: &Vec<u8>,
    seed_b: &Vec<u8>,
    seed_c: &Vec<u8>,
    tree_pubkey: &[u8; 32],
    program_id: &[u8; 32],
) -> (r: ([u8; 32], [u8; 32]))
    ensures
        r.0@ == derived_address_of(seq![seed_a@, seed_b@, seed_c@], tree_pubkey@, program_id@),
        r.1@ == derived_seed_of(seq![seed_a@, seed_b@, seed_c@], program_id@),
{
    let (address, address_seed) = light_sdk::address::v1::derive_address(
        &[seed_a.as_slice(), seed_b.as_slice(), seed_c.as_slice()],
        &solana_pubkey::Pubkey::from(*tree_pubkey),
        &solana_pubkey::Pubkey::from(*program_id),
    );
    (address, address_seed.into())
}

/// Relies on `light_sdk::address::v1::derive_address` with two seed
/// slices, as the counter accounts use it.
#[verifier::external_body]
fn derive_address_raw2(
    seed_a: &Vec<u8>,
    seed_b: &Vec<u8>,
    tree_pubkey: &[u8; 32],
    program_id: &[u8; 32],
) -> (r: ([u8; 32], [u8; 32]))
    ensures
        r.0@ == derived_address_of(seq![seed_a@, seed_b@], tree_pubkey@, program_id@),
        r.1@ == derived_seed_of(seq![seed_a@, seed_b@], program_id@),
{
    let (address, address_seed) = light_sdk::address::v1::derive_address(
        &[seed_a.as_slice(), seed_b.as_slice()],
        &solana_pubkey::Pubkey::from(*tree_pubkey),
        &solana_pubkey::Pubkey::from(*program_id),
    );
    (address, address_seed.into())
}

/// The `deposit` domain tag, as bytes.
pub open spec fn deposit_tag() -> Seq<u8> {
    seq![0x64u8, 0x65, 0x70, 0x6f, 0x73, 0x69, 0x74]
}

/// The `withdrawal` domain tag, as bytes.
pub open spec fn withdrawal_tag() -> Seq<u8> {
    seq![0x77u8, 0x69, 0x74, 0x68, 0x64, 0x72, 0x61, 0x77, 0x61, 0x6c]
}

/// The `counter` domain tag, as bytes.
pub open spec fn counter_tag() -> Seq<u8> {
    seq![0x63u8, 0x6f, 0x75, 0x6e, 0x74, 0x65, 0x72]
}

/// The seed slices of a deposit record: the `deposit` tag, the
/// depositor's key, and the little-endian deposit id.
pub open spec fn deposit_address_seeds(owner: Seq<u8>, deposit_id: u128) -> Seq<Seq<u8>> {
    seq![deposit_tag(), owner, spec_u128_to_le_bytes(deposit_id)]
}

/// The seed slices of a withdrawal record: the `withdrawal` tag, the
/// recipient's key, and the little-endian withdrawal id.
pub open spec fn withdrawal_address_seeds(recipient: Seq<u8>, withdrawal_id: u128) -> Seq<
    Seq<u8>,
> {
    seq![withdrawal_tag(), recipient, spec_u128_to_le_bytes(withdrawal_id)]
}

/// The seed slices of a counter account: the `counter` tag and the
/// owner's key.
pub open spec fn counter_address_seeds(owner: Seq<u8>) -> Seq<Seq<u8>> {
    seq![counter_tag(), owner]
}

fn deposit_tag_vec() -> (v: Vec<u8>)
    ensures
        v@ == deposit_tag(),
{
    let mut v: Vec<u8> = Vec::new();
    v.push(0x64);
    v.push(0x65);
    v.push(0x70);
    v.push(0x6f);
    v.push(0x73);
    v.push(0x69);
    v.push(0x74);
    proof {
        assert(v@ =~= deposit_tag());
    }
    v
}

fn withdrawal_tag_vec() -> (v: Vec<u8>)
    ensures
        v@ == withdrawal_tag(),
{
    let mut v: Vec<u8> = Vec::new();
    v.push(0x77);
    v.push(0x69);
    v.push(0x74);
    v.push(0x68);
    v.push(0x64);
    v.push(0x72);
    v.push(0x61);
    v.push(0x77);
    v.push(0x61);
    v.push(0x6c);
    proof {
        assert(v@ =~= withdrawal_tag());
    }
    v
}

fn counter_tag_vec() -> (v: Vec<u8>)
    ensures
        v@ == counter_tag(),
{
    let mut v: Vec<u8> = Vec::new();
    v.push(0x63);
    v.push(0x6f);
    v.push(0x75);
    v.push(0x6e);
    v.push(0x74);
    v.push(0x65);
    v.push(0x72);
    proof {
        assert(v@ =~= counter_tag());
    }
    v
}

/// Derive the address and pre-hash seed of the deposit record with the
/// given depositor and deposit id, scoped to one address tree.
pub fn derive_deposit_address(
    owner: &[u8; 32],
    deposit_id: u128,
    tree_pubkey: &[u8; 32],
    program_id: &[u8; 32],
) -> (r: ([u8; 32], [u8; 32]))
    ensures
        r.0@ == derived_address_of(
            deposit_address_seeds(owner@, deposit_id),
            tree_pubkey@,
            program_id@,
        ),
        r.1@ == derived_seed_of(deposit_address_seeds(owner@, deposit_id), program_id@),
{
    let tag = deposit_tag_vec();
    let subject = slice_to_vec(owner.as_slice());
    let salt = u128_to_le_bytes(deposit_id);
    derive_address_raw3(&tag, &subject, &salt, tree_pubkey, program_id)
}

/// Derive the address and pre-hash seed of the withdrawal record with
/// the given recipient and withdrawal id, scoped to one address tree.
pub fn derive_withdrawal_address(
    recipient: &[u8; 32],
    withdrawal_id: u128,
    tree_pubkey: &[u8; 32],
    program_id: &[u8; 32],
) -> (r: ([u8; 32], [u8; 32]))
    ensures
        r.0@ == derived_address_of(
            withdrawal_address_seeds(recipient@, withdrawal_id),
            tree_pubkey@,
            program_id@,
        ),
        r.1@ == derived_seed_of(withdrawal_address_seeds(recipient@, withdrawal_id), program_id@),
{
    let tag = withdrawal_tag_vec();
    let subject = slice_to_vec(recipient.as_slice());
    let salt = u128_to_le_bytes(withdrawal_id);
    derive_address_raw3(&tag, &subject, &salt, tree_pubkey, program_id)
}

/// Derive the address and pre-hash seed of the counter account owned by
/// the given signer, scoped to one address tree.
pub fn derive_counter_address(
    owner: &[u8; 32],
    tree_pubkey: &[u8; 32],
    program_id: &[u8; 32],
) -> (r: ([u8; 32], [u8; 32]))
    ensures
        r.0@ == derived_address_of(counter_address_seeds(owner@), tree_pubkey@, program_id@),
        r.1@ == derived_seed_of(counter_address_seeds(owner@), program_id@),
{
    let tag = counter_tag_vec();
    let subject = slice_to_vec(owner.as_slice());
    derive_address_raw2(&tag, &subject, tree_pubkey, program_id)
}

/// Determinism: addresses derived from the same (domain tag, subject,
/// id) triple in the same tree under the same program are always
/// identical, across repeated derivations.
pub proof fn lemma_address_derivation_deterministic(
    a1: Seq<u8>,
    a2: Seq<u8>,
    seeds: Seq<Seq<u8>>,
    tree_pubkey: Seq<u8>,
    program_id: Seq<u8>,
)
    requires
        a1 == derived_address_of(seeds, tree_pubkey, program_id),
        a2 == derived_address_of(seeds, tree_pubkey, program_id),
    ensures
        a1 == a2,
{
}

/// Distinct triples feed distinct seed material into the hash: the
/// deposit seed slices determine the depositor and the deposit id, and
/// the deposit and withdrawal domains never share seed slices. (That the
/// hash keeps distinct seeds apart is the outside collaborator's
/// collision resistance, not stated here.)
pub proof fn lemma_address_seed_material_injective(
    o1: Seq<u8>,
    id1: u128,
    o2: Seq<u8>,
    id2: u128,
)
    ensures
        deposit_address_seeds(o1, id1) == deposit_address_seeds(o2, id2) ==> (o1 == o2 && id1
            == id2),
        deposit_address_seeds(o1, id1) != withdrawal_address_seeds(o2, id2),
{
    vstd::bytes::lemma_auto_spec_u128_to_from_le_bytes();
    if deposit_address_seeds(o1, id1) == deposit_address_seeds(o2, id2) {
        assert(deposit_address_seeds(o1, id1)[1] == o1);
        assert(deposit_address_seeds(o2, id2)[1] == o2);
        assert(deposit_address_seeds(o1, id1)[2] == spec_u128_to_le_bytes(id1));
        assert(deposit_address_seeds(o2, id2)[2] == spec_u128_to_le_bytes(id2));
        assert(spec_u128_to_le_bytes(id1).len() == 16);
        assert(spec_u128_to_le_bytes(id2).len() == 16);
        assert(spec_u128_from_le_bytes(spec_u128_to_le_bytes(id1)) == id1);
        assert(spec_u128_from_le_bytes(spec_u128_to_le_bytes(id2)) == id2);
    }
    assert(deposit_address_seeds(o1, id1)[0].len() == 7);
    assert(withdrawal_address_seeds(o2, id2)[0].len() == 10);
    assert(deposit_address_seeds(o1, id1)[0] != withdrawal_address_seeds(o2, id2)[0]);
}

} // verus!
