//! What can keep an operation from succeeding.
use vstd::prelude::*;

verus! {

/// Why an operation did not succeed.
#[derive(Clone, Debug)]
pub enum BridgeError {
    /// A field that the operation needs is empty; nothing was started.
    InvalidRequest { reason: String },
    /// No operation is registered under this name.
    UnknownOperation { name: String },
    /// The user dismissed the save prompt; the worker was not started.
    UserCancelled,
    /// The chosen location is not a usable textual path.
    UnrepresentablePath,
    /// The worker program could not be started.
    SpawnError { cause: String },
    /// The worker ran and exited unsuccessfully.
    WorkerFailure { message: String },
}

impl BridgeError {
    /// The human-readable text shown to the user for this error.
    pub open spec fn spec_message(&self) -> Seq<char> {
        match self {
            BridgeError::InvalidRequest { reason } => reason@,
            BridgeError::UnknownOperation { name } => "Unknown operation: "@ + name@,
            BridgeError::UserCancelled => "Save cancelled"@,
            BridgeError::UnrepresentablePath => "Path contains invalid characters"@,
            BridgeError::SpawnError { cause } => "Failed to execute the worker: "@ + cause@,
            BridgeError::WorkerFailure { message } => message@,
        }
    }

    pub fn message(&self) -> (r: String)
        ensures
            r@ == self.spec_message(),
    {
        match self {
            BridgeError::InvalidRequest { reason } => reason.as_str().to_owned(),
            BridgeError::UnknownOperation { name } => {
                "Unknown operation: ".to_owned().concat(name.as_str())
            },
            BridgeError::UserCancelled => "Save cancelled".to_owned(),
            BridgeError::UnrepresentablePath => "Path contains invalid characters".to_owned(),
            BridgeError::SpawnError { cause } => {
                "Failed to execute the worker: ".to_owned().concat(cause.as_str())
            },
            BridgeError::WorkerFailure { message } => message.as_str().to_owned(),
        }
    }
}

} // verus!
