//! Cross-chain token bridge coordinator core: the transfer ledger and its
//! state machine, deposit verification, fee/amount conversion, and Ethereum
//! transaction envelope encoding and signing.

pub mod amount;
pub mod auth;
pub mod confirm;
pub mod coordinator;
pub mod crypto;
pub mod envelope;
pub mod error;
pub mod ledger;
pub mod parse;
pub mod rlp;
pub mod signer;
