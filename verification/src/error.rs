//! The error surface of the workflow engine.

use vstd::prelude::*;

verus! {

/// Every way an execution unit of the engine can abort. The host rolls
/// back all storage writes of the aborted unit, so no partial state is
/// ever left behind.
#[derive(Debug)]
pub enum ContractError {
    /// The listing request named neither a ready-made asset descriptor
    /// nor a token symbol to create one from.
    InvalidRequest,
    /// An expected attribute was absent from a completion notification;
    /// this indicates contract drift in an external module.
    MissingAttribute { name: String },
    /// A completion notification arrived with a correlation id the
    /// router does not recognize.
    UnknownCorrelation { id: u64 },
    /// An external collaborator reported failure for the named step.
    StepFailed { step: String, reason: String },
    /// A payload could not be serialized. The payload encoder of this
    /// crate is verified total, so the engine never produces this value;
    /// it remains part of the error surface for the host glue.
    EncodingError,
    /// A continuation-state read failed: the slot that the running step
    /// relies on was never written. Always fatal.
    StorageError,
}

impl ContractError {
    /// A short human-readable rendering, for hosts that surface errors
    /// as plain text.
    pub fn message(&self) -> (r: String)
        ensures
            match self {
                ContractError::InvalidRequest => r@
                    == "token symbol is empty; cannot create a new token for pool listing"@,
                ContractError::MissingAttribute { name } => r@ == "missing attribute: "@ + name@,
                ContractError::UnknownCorrelation { id } => r@
                    == "unknown correlation id in completion notification"@,
                ContractError::StepFailed { step, reason } => r@ == "step "@ + step@ + " failed: "@
                    + reason@,
                ContractError::EncodingError => r@ == "payload encoding failed"@,
                ContractError::StorageError => r@ == "continuation state not found"@,
            },
    {
        match self {
            ContractError::InvalidRequest => String::from_str(
                "token symbol is empty; cannot create a new token for pool listing",
            ),
            ContractError::MissingAttribute { name } => String::from_str(
                "missing attribute: ",
            ).concat(name.as_str()),
            ContractError::UnknownCorrelation { id: _ } => String::from_str(
                "unknown correlation id in completion notification",
            ),
            ContractError::StepFailed { step, reason } => String::from_str("step ").concat(
                step.as_str(),
            ).concat(" failed: ").concat(reason.as_str()),
            ContractError::EncodingError => String::from_str("payload encoding failed"),
            ContractError::StorageError => String::from_str("continuation state not found"),
        }
    }
}

} // verus!
