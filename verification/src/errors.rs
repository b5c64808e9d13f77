//! Error taxonomy of the adapter.

use vstd::prelude::*;

verus! {

/// Why an adapter operation failed.
#[derive(Debug)]
pub enum PaymentError {
    /// The payment request could not be parsed as a Lightning invoice.
    InvalidInvoice,
    /// The caller asked for a payment style this adapter does not support.
    UnsupportedOption,
    /// A wallet call failed; the wallet's own error text is carried along.
    BackendFailure(String),
    /// The durable correlation store failed; the storage error text is carried along.
    StoreFailure(String),
    /// No correlation is on record for the given identifier.
    NotFound,
}

/// Why a backend configuration was rejected before any wallet call.
#[derive(Debug, Clone, Copy, PartialEq, Eq, Structural)]
pub enum ConfigError {
    /// The wallet API key is empty.
    MissingApiKey,
    /// The mnemonic seed phrase is empty.
    MissingMnemonic,
}

} // verus!
