//! The failures a transfer run can end in.

use vstd::prelude::*;

verus! {

/// What was wrong with the configuration a run was started with.
#[derive(Clone, Copy, Debug, PartialEq, Eq, Structural)]
pub enum ConfigurationFault {
    /// The network name is none of the supported ones.
    UnsupportedChain,
    /// No endpoint is configured for the selected network.
    MissingEndpoint,
    /// The endpoint configured for the selected network is not a URL.
    MalformedEndpoint,
}

/// The network call of a run that failed.
#[derive(Clone, Copy, Debug, PartialEq, Eq, Structural)]
pub enum TransferError {
    /// The configuration is missing or malformed.
    Configuration(ConfigurationFault),
    /// The signing key material is malformed.
    InvalidCredential,
    /// The destination address is malformed.
    InvalidAddress,
    /// A read of the chain identifier or of a balance failed.
    Query,
    /// The network rejected the broadcast of the transaction.
    Submission,
    /// The confirmation watch failed after the broadcast.
    Confirmation,
}

impl TransferError {
    /// The diagnostic printed for this error.
    pub open spec fn spec_message(self) -> Seq<char> {
        match self {
            TransferError::Configuration(ConfigurationFault::UnsupportedChain) => "unsupported chain"@,
            TransferError::Configuration(ConfigurationFault::MissingEndpoint) => "no RPC endpoint is configured for the selected chain"@,
            TransferError::Configuration(ConfigurationFault::MalformedEndpoint) => "the RPC endpoint of the selected chain is not a valid URL"@,
            TransferError::InvalidCredential => "invalid private key"@,
            TransferError::InvalidAddress => "invalid destination address"@,
            TransferError::Query => "reading chain state failed"@,
            TransferError::Submission => "the network rejected the transaction"@,
            TransferError::Confirmation => "watching for the confirmation failed"@,
        }
    }

    /// The diagnostic printed for this error.
    pub fn message(&self) -> (text: &'static str)
        ensures
            text@ == self.spec_message(),
    {
        match self {
            TransferError::Configuration(ConfigurationFault::UnsupportedChain) => "unsupported chain",
            TransferError::Configuration(ConfigurationFault::MissingEndpoint) => "no RPC endpoint is configured for the selected chain",
            TransferError::Configuration(ConfigurationFault::MalformedEndpoint) => "the RPC endpoint of the selected chain is not a valid URL",
            TransferError::InvalidCredential => "invalid private key",
            TransferError::InvalidAddress => "invalid destination address",
            TransferError::Query => "reading chain state failed",
            TransferError::Submission => "the network rejected the transaction",
            TransferError::Confirmation => "watching for the confirmation failed",
        }
    }
}

} // verus!
