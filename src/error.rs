use vstd::prelude::*;

verus! {

/// Why a call request could not be put into canonical form.
#[derive(Clone, Copy, Debug, PartialEq, Eq, Structural)]
pub enum NormalizationError {
    /// An account identifier is not thirty-two bytes long.
    InvalidAddress,
}

/// Why a finalized transaction did not yield return values.
#[derive(Clone, Copy, Debug, PartialEq, Eq, Structural)]
pub enum TransactionError {
    /// No result has a nonzero nonce and data that starts with `@`.
    NoSmartContractResult,
    /// The result's status field is missing or is not the success code.
    ResultCodeNotOk,
    /// A return field is not valid hexadecimal text.
    CannotDecodeHex,
    /// The raw return values do not decode into the requested type.
    CannotDecodeSmartContractResult,
}

/// Everything an executor can fail with.
#[derive(Clone, Debug, PartialEq, Eq)]
pub enum ExecutorError {
    /// The interactor session could not be opened or the submission failed.
    Interactor(String),
    /// The call request could not be normalized.
    Normalization(NormalizationError),
    /// The transaction ran but its response is not usable.
    Transaction(TransactionError),
    /// Deployment through the network executor is not available.
    DeployNotImplemented,
}

} // verus!
