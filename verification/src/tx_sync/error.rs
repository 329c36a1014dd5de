//! The error of a transaction sync.

use vstd::prelude::*;
use vstd::string::StringExecFns;

verus! {

#[verifier::external_type_specification]
#[verifier::external_body]
pub struct ExEsploraError(esplora_client::Error);

/// An error that possibly needs to be handled by the user.
#[derive(Debug, Clone, Copy, PartialEq, Eq, Structural)]
pub enum TxSyncError {
    /// A transaction sync failed and needs to be retried eventually.
    Failed,
    /// An inconsistency was encountered during transaction sync.
    Inconsistency,
}

/// The text that describes an error.
pub open spec fn tx_sync_error_text(error: TxSyncError) -> Seq<char> {
    match error {
        TxSyncError::Failed => "Failed to conduct transaction sync."@,
        TxSyncError::Inconsistency => "Encountered an inconsisteny during transaction sync."@,
    }
}

impl TxSyncError {
    /// Describes the error, as its `Display` writes it.
    pub fn to_string(&self) -> (text: String)
        ensures
            text@ == tx_sync_error_text(*self),
    {
        match self {
            TxSyncError::Failed => String::from_str("Failed to conduct transaction sync."),
            TxSyncError::Inconsistency => String::from_str("Encountered an inconsisteny during transaction sync."),
        }
    }
}

impl From<esplora_client::Error> for TxSyncError {
    fn from(_e: esplora_client::Error) -> (error: Self) {
        TxSyncError::Failed
    }
}

impl vstd::std_specs::convert::FromSpecImpl<esplora_client::Error> for TxSyncError {
    open spec fn obeys_from_spec() -> bool {
        true
    }

    open spec fn from_spec(_e: esplora_client::Error) -> Self {
        TxSyncError::Failed
    }
}

} // verus!
