//! Succinct-proof verification against a fixed verifying key and a
//! vector of public field-element inputs. The pairing check itself is
//! the proving system's; this module pins down exactly when each error
//! is returned and that acceptance is a pure function of the proof
//! bytes, the public inputs and the key.

use vstd::prelude::*;
use crate::errors::ErrorCode;

verus! {

/// A Groth16 verifying key held as plain values: the four curve-point
/// constants and one point per public input (plus one).
pub struct VerifyingKey {
    pub nr_pubinputs: usize,
    pub vk_alpha_g1: [u8; 64],
    pub vk_beta_g2: [u8; 128],
    pub vk_gamme_g2: [u8; 128],
    pub vk_delta_g2: [u8; 128],
    pub vk_ic: Vec<[u8; 64]>,
}

/// The key as a sequence of byte strings: the four constants followed by
/// the input points.
pub open spec fn vk_view(k: &VerifyingKey) -> Seq<Seq<u8>> {
    seq![k.vk_alpha_g1@, k.vk_beta_g2@, k.vk_gamme_g2@, k.vk_delta_g2@] + k.vk_ic@.map(
        |i: int, e: [u8; 64]| e@,
    )
}

/// The public inputs as a sequence of byte strings.
pub open spec fn inputs_view<const N: usize>(public_inputs: [[u8; 32]; N]) -> Seq<Seq<u8>> {
    public_inputs@.map(|i: int, e: [u8; 32]| e@)
}

/// Whether the pairing check accepts the given proof triple for the
/// given public inputs under the given key; a pure function of the
/// bytes.
pub uninterp spec fn groth16_pairing_accepts(
    proof_a: Seq<u8>,
    proof_b: Seq<u8>,
    proof_c: Seq<u8>,
    public_inputs: Seq<Seq<u8>>,
    vk: Seq<Seq<u8>>,
) -> bool;

/// Relies on `groth16_solana::groth16::Groth16Verifier`: `new` rejects
/// exactly a key whose input-point count does not match the input count,
/// and `verify` accepts or rejects as a pure function of proof bytes,
/// public inputs and key.
#[verifier::external_body]
pub fn groth16_verifier<const N: usize>(
    proof_a: [u8; 64],
    proof_b: [u8; 128],
    proof_c: [u8; 64],
    public_inputs: &[[u8; 32]; N],
    vk: &VerifyingKey,
) -> (r: Result<(), ErrorCode>)
    ensures
        r is Ok <==> (N + 1 == vk.vk_ic@.len() && groth16_pairing_accepts(
            proof_a@,
            proof_b@,
            proof_c@,
            inputs_view(*public_inputs),
            vk_view(vk),
        )),
        (r matches Err(e) && e == ErrorCode::InvalidProofData) <==> N + 1 != vk.vk_ic@.len(),
        (r matches Err(e) && e == ErrorCode::Groth16VerificationFailed) <==> (N + 1
            == vk.vk_ic@.len() && !groth16_pairing_accepts(
            proof_a@,
            proof_b@,
            proof_c@,
            inputs_view(*public_inputs),
            vk_view(vk),
        )),
{
    let gvk = groth16_solana::groth16::Groth16Verifyingkey {
        nr_pubinputs: vk.nr_pubinputs,
        vk_alpha_g1: vk.vk_alpha_g1,
        vk_beta_g2: vk.vk_beta_g2,
        vk_gamme_g2: vk.vk_gamme_g2,
        vk_delta_g2: vk.vk_delta_g2,
        vk_ic: vk.vk_ic.as_slice(),
    };
    match groth16_solana::groth16::Groth16Verifier::new(&proof_a, &proof_b, &proof_c, public_inputs, &gvk) {
        Ok(mut v) => v.verify().map_err(|_| ErrorCode::Groth16VerificationFailed),
        Err(_) => Err(ErrorCode::InvalidProofData),
    }
}

} // verus!
