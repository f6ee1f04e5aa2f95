//! Errors and warnings of the start-up check, with the text that an
//! operator gets to read.

use vstd::prelude::*;

verus! {

/// Why the requested configuration cannot be reconciled with what the
/// database recorded without importing the chain again.
#[derive(Debug, Clone, Copy, PartialEq, Eq, Structural)]
pub enum ResyncReason {
    /// The database was built with indexing enabled and the operator asks,
    /// without force, to disable it.
    IndexingRequired,
    /// The database was built with indexing disabled and the operator asks,
    /// without force, to enable it.
    IndexingMissing,
}

impl ResyncReason {
    /// The text of the reason.
    pub open spec fn spec_message(self) -> Seq<char> {
        match self {
            ResyncReason::IndexingRequired =>
                "The DB requires indexing to be enabled. Start a separate DB or use ForceDisable, but be aware that re-enabling will require re-sync"@,
            ResyncReason::IndexingMissing =>
                "Re-sync required due to config change of offchain indexing"@,
        }
    }

    /// The text of the reason, as shown to the operator.
    pub fn message(&self) -> (text: String)
        ensures
            text@ == self.spec_message(),
    {
        match self {
            ResyncReason::IndexingRequired =>
                "The DB requires indexing to be enabled. Start a separate DB or use ForceDisable, but be aware that re-enabling will require re-sync".to_owned(),
            ResyncReason::IndexingMissing =>
                "Re-sync required due to config change of offchain indexing".to_owned(),
        }
    }
}

/// An error of the start-up check. Each one is fatal to the start-up.
#[derive(Debug, PartialEq, Eq)]
pub enum ReconcileError {
    /// The requested state contradicts the history that the database holds.
    ResyncRequired {
        /// Which way the request contradicts the record.
        reason: ResyncReason,
    },
    /// The metadata store failed to read or to write.
    StoreError {
        /// What the store reported.
        message: String,
    },
    /// Stored bytes that are no encoding of a record.
    DecodeError,
}

impl Clone for ReconcileError {
    fn clone(&self) -> (copy: Self)
        ensures
            copy == *self,
    {
        match self {
            ReconcileError::ResyncRequired { reason } => ReconcileError::ResyncRequired {
                reason: *reason,
            },
            ReconcileError::StoreError { message } => ReconcileError::StoreError {
                message: message.clone(),
            },
            ReconcileError::DecodeError => ReconcileError::DecodeError,
        }
    }
}

impl ReconcileError {
    /// The text of the error.
    pub open spec fn spec_message(self) -> Seq<char> {
        match self {
            ReconcileError::ResyncRequired { reason } => reason.spec_message(),
            ReconcileError::StoreError { message } => message@,
            ReconcileError::DecodeError => "Failed to decode offchain indexing state value"@,
        }
    }

    /// The text of the error, as shown to the operator.
    pub fn message(&self) -> (text: String)
        ensures
            text@ == self.spec_message(),
    {
        match self {
            ReconcileError::ResyncRequired { reason } => reason.message(),
            ReconcileError::StoreError { message } => message.clone(),
            ReconcileError::DecodeError =>
                "Failed to decode offchain indexing state value".to_owned(),
        }
    }
}

/// Something the operator should be told although the check goes on.
#[derive(Debug, Clone, Copy, PartialEq, Eq, Structural)]
pub enum Warning {
    /// The stored bytes were no record; the check treats the start as a
    /// first start and overwrites them.
    PreviousStateUnreadable,
    /// An earlier run forced the state to change, so the offchain database
    /// may lack data for part of the history.
    HistoryIncomplete,
}

impl Warning {
    /// The text of the warning.
    pub open spec fn spec_message(self) -> Seq<char> {
        match self {
            Warning::PreviousStateUnreadable =>
                "Failed to obtain previous offchain indexing state from DB, overwriting."@,
            Warning::HistoryIncomplete =>
                "Historical data in the offchain DB could be incomplete!"@,
        }
    }

    /// The text of the warning, as it should be logged.
    pub fn message(&self) -> (text: String)
        ensures
            text@ == self.spec_message(),
    {
        match self {
            Warning::PreviousStateUnreadable =>
                "Failed to obtain previous offchain indexing state from DB, overwriting.".to_owned(),
            Warning::HistoryIncomplete =>
                "Historical data in the offchain DB could be incomplete!".to_owned(),
        }
    }
}

} // verus!
