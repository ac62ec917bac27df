//! Error taxonomy of the bridge: validation, authorization, counter and
//! relayer-pipeline failures are kept apart so that a caller can tell an
//! invalid input from an operation the system could not complete.

use vstd::prelude::*;

verus! {

/// Errors raised by the on-chain protocol paths (deposit, withdraw,
/// proof verification, counters).
#[derive(Clone, Copy, Debug, PartialEq, Eq, Structural)]
pub enum ErrorCode {
    DepositAmountShouldBeGreaterThanZero,
    WithdrawAmountShouldBeGreaterThanZero,
    InvalidProofData,
    Groth16VerificationFailed,
    InvalidArgs,
    /// A counter increment would wrap; defensive-only terminal condition.
    CounterOverflow,
    /// The staged proof's nullifier was already consumed by an earlier
    /// withdrawal; the double-spend gate.
    NullifierAlreadyUsed,
}

/// Errors raised by the relayer-side transformation and proving pipeline.
#[derive(Clone, Copy, Debug, PartialEq, Eq, Structural)]
pub enum RelayerError {
    /// The indexer-reported account carries no payload.
    MissingAccountData,
    /// The inclusion proof does not decode.
    MalformedProof,
    /// The witness computation step failed.
    WitnessComputationFailed,
    /// The succinct-proof construction step failed.
    ProofGenerationFailed,
    /// The freshly generated proof failed its immediate self-verification.
    ProofSelfCheckFailed,
}

impl ErrorCode {
    /// A human-readable description of the error.
    pub fn message(&self) -> (r: &'static str)
        ensures
            r@.len() > 0,
    {
        proof {
            reveal_strlit("DepositAmountShouldBeGreaterThanZero");
            reveal_strlit("WithdrawAmountShouldBeGreaterThanZero");
            reveal_strlit("Invalid Proof Data");
            reveal_strlit("Groth16 Verification Failed");
            reveal_strlit("Invalid args");
            reveal_strlit("Counter Overflow");
            reveal_strlit("Nullifier Already Used");
        }
        match self {
            ErrorCode::DepositAmountShouldBeGreaterThanZero => "DepositAmountShouldBeGreaterThanZero",
            ErrorCode::WithdrawAmountShouldBeGreaterThanZero => "WithdrawAmountShouldBeGreaterThanZero",
            ErrorCode::InvalidProofData => "Invalid Proof Data",
            ErrorCode::Groth16VerificationFailed => "Groth16 Verification Failed",
            ErrorCode::InvalidArgs => "Invalid args",
            ErrorCode::CounterOverflow => "Counter Overflow",
            ErrorCode::NullifierAlreadyUsed => "Nullifier Already Used",
        }
    }
}

} // verus!
