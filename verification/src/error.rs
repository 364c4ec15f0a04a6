//! The error taxonomy of the bridge: validation failures, precondition
//! failures, upstream failures (which leave a transfer pending for retry)
//! and internal failures.

use vstd::prelude::*;
use vstd::string::StringExecFns;

verus! {

/// The failure text reported for a rejected request field.
pub fn generate_error_response(field_name: &str) -> (r: String)
    ensures
        r@ == "Validation Failed: "@ + field_name@,
{
    let mut s = String::from_str("Validation Failed: ");
    s.append(field_name);
    s
}

/// The on-chain deposit field that failed verification.
#[derive(Clone, Copy, Debug, PartialEq, Eq, Structural)]
pub enum MismatchField {
    From,
    To,
    Value,
}

/// Every failure a bridge operation can report.
#[derive(Clone, Copy, Debug, PartialEq, Eq, Structural)]
pub enum BridgeError {
    // Validation failures: the request itself is rejected.
    InvalidAmount,
    SameNetwork,
    BadHash,
    UnsupportedAsset,
    TokenNetworkMismatch,
    UnknownNetwork,
    UnknownToken,
    UnknownTransfer,
    AddressParse,
    // Precondition failures: the request is well-formed but the world
    // disagrees.
    IllegalTransition,
    AlreadyFinalized,
    InsufficientBalance,
    InsufficientConfirmations,
    OnChainMismatch(MismatchField),
    // Upstream failures: a collaborator failed; the transfer stays pending.
    ChainUnavailable,
    SignerUnavailable,
    DecodeError,
    ReceiptTimeout,
    // Internal failures.
    AmountOverflow,
    LedgerError,
    Bug,
}

impl BridgeError {
    /// Whether the failure is an upstream one, after which a transfer is
    /// left pending for retry rather than finalized as failed.
    pub open spec fn spec_is_transient(self) -> bool {
        self == BridgeError::ChainUnavailable || self == BridgeError::SignerUnavailable
            || self == BridgeError::DecodeError || self == BridgeError::ReceiptTimeout
    }

    /// Whether the failure is an upstream one, after which a transfer is
    /// left pending for retry rather than finalized as failed.
    pub fn is_transient(&self) -> (r: bool)
        ensures
            r == self.spec_is_transient(),
    {
        match self {
            BridgeError::ChainUnavailable => true,
            BridgeError::SignerUnavailable => true,
            BridgeError::DecodeError => true,
            BridgeError::ReceiptTimeout => true,
            _ => false,
        }
    }

    /// A short description of the failure, for response envelopes.
    pub fn message(&self) -> String {
        match self {
            BridgeError::InvalidAmount => String::from_str("Amount must be greater than zero"),
            BridgeError::SameNetwork => String::from_str("Same Network Not Allowed"),
            BridgeError::BadHash => String::from_str("Transaction hash is incorrect"),
            BridgeError::UnsupportedAsset => String::from_str("Asset type not supported"),
            BridgeError::TokenNetworkMismatch => String::from_str(
                "Token does not belong to the requested network",
            ),
            BridgeError::UnknownNetwork => String::from_str("Network Not Found"),
            BridgeError::UnknownToken => String::from_str("Token Address Not Found"),
            BridgeError::UnknownTransfer => String::from_str("Transfer Not Found"),
            BridgeError::AddressParse => String::from_str("Error parsing address"),
            BridgeError::IllegalTransition => String::from_str(
                "Transaction not in Pending state",
            ),
            BridgeError::AlreadyFinalized => String::from_str("Transfer already finalized"),
            BridgeError::InsufficientBalance => String::from_str(
                "Account Balance is not sufficient",
            ),
            BridgeError::InsufficientConfirmations => String::from_str(
                "Block confirmation less than the required minimum",
            ),
            BridgeError::OnChainMismatch(MismatchField::From) => String::from_str(
                "From address does not match",
            ),
            BridgeError::OnChainMismatch(MismatchField::To) => String::from_str(
                "To address does not match",
            ),
            BridgeError::OnChainMismatch(MismatchField::Value) => String::from_str(
                "Value does not match",
            ),
            BridgeError::ChainUnavailable => String::from_str("Chain unavailable"),
            BridgeError::SignerUnavailable => String::from_str("Signer unavailable"),
            BridgeError::DecodeError => String::from_str("Malformed upstream result"),
            BridgeError::ReceiptTimeout => String::from_str("Receipt polling budget exhausted"),
            BridgeError::AmountOverflow => String::from_str("Amount overflow"),
            BridgeError::LedgerError => String::from_str("Ledger error"),
            BridgeError::Bug => String::from_str("Internal error"),
        }
    }
}

} // verus!
