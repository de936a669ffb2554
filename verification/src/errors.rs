//! Error taxonomy of the exchange and custody engine.
//!
//! Every failure aborts the whole operation with no partial state change;
//! the variants below distinguish why it aborted.

use vstd::prelude::*;

verus! {

/// Failures of market creation.
#[derive(Clone, Copy, Debug, PartialEq, Eq, Structural)]
pub enum CustomError {
    /// The issuer name exceeds the configured maximum length.
    IssuerNameTooLong,
    /// A market for this issuer name already exists; the existing record
    /// is left untouched.
    MarketAlreadyExists,
    /// No valid derivation exists for one of the market's addresses.
    DerivationFailed,
}

/// Failures of trade execution.
#[derive(Clone, Copy, Debug, PartialEq, Eq, Structural)]
pub enum MarketError {
    /// The market's lifecycle flag forbids trading.
    MarketPaused,
    /// A checked arithmetic step overflowed, underflowed or divided by zero.
    MathOverflow,
    /// A fixed-price sell asks for more quote tokens than the vault holds.
    InsufficientVaultFunds,
    /// The token-transfer primitive reported failure (payer short of funds
    /// or receiving balance would overflow).
    TransferFailure,
    /// A presented account address does not match its re-derived value.
    ValidationError,
    /// The operation is a declared future extension point, not yet provided.
    Unimplemented,
}

} // verus!
