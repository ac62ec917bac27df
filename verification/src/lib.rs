//! Cross-chain token bridge core: deposit/withdraw protocol state machine,
//! compressed-record model with deterministic address derivation, and the
//! relayer-side pipeline that turns a Merkle inclusion proof plus a decoded
//! deposit record into zero-knowledge circuit inputs.

pub mod address;
pub mod circuit;
pub mod codec;
pub mod errors;
pub mod field_encode;
pub mod ledger;
pub mod protocol;
pub mod state;
pub mod zk;
