//! Requests from the user interface and their validation.
use vstd::prelude::*;

use crate::error::BridgeError;
use crate::operation::Operation;

verus! {

/// A request for one operation. `filename` is the file path for
/// `ProcessFile`; `recipient_email` is read by `ShareFile` alone.
#[derive(Clone, Debug)]
pub struct OperationRequest {
    pub operation: Operation,
    pub user_id: String,
    pub filename: String,
    pub recipient_email: String,
}

impl OperationRequest {
    /// Every field that the operation needs is non-empty.
    pub open spec fn spec_is_valid(&self) -> bool {
        &&& self.user_id@.len() > 0
        &&& self.operation.needs_filename() ==> self.filename@.len() > 0
        &&& self.operation.needs_recipient() ==> self.recipient_email@.len() > 0
    }

    /// The reason given when a request for `op` is rejected.
    pub open spec fn spec_invalid_reason(op: Operation) -> Seq<char> {
        match op {
            Operation::ProcessFile => "File path and user ID cannot be empty"@,
            Operation::ShareFile => "User ID, filename, and recipient email cannot be empty"@,
            Operation::ListUserMetadata | Operation::ListSharedMetadata => "User ID cannot be empty"@,
            _ => "User ID and filename cannot be empty"@,
        }
    }

    /// Checks that every field the operation needs is non-empty.
    pub fn validate(&self) -> (r: Result<(), BridgeError>)
        ensures
            r is Ok <==> self.spec_is_valid(),
            r matches Err(e) ==> (e matches BridgeError::InvalidRequest { reason }
                && reason@ == Self::spec_invalid_reason(self.operation)),
    {
        let missing_user = self.user_id.as_str().is_empty();
        let missing_file = self.filename.as_str().is_empty();
        let missing_recipient = self.recipient_email.as_str().is_empty();
        let reason = match self.operation {
            Operation::ProcessFile => {
                if missing_user || missing_file {
                    Some("File path and user ID cannot be empty")
                } else {
                    None
                }
            },
            Operation::ShareFile => {
                if missing_user || missing_file || missing_recipient {
                    Some("User ID, filename, and recipient email cannot be empty")
                } else {
                    None
                }
            },
            Operation::ListUserMetadata | Operation::ListSharedMetadata => {
                if missing_user {
                    Some("User ID cannot be empty")
                } else {
                    None
                }
            },
            _ => {
                if missing_user || missing_file {
                    Some("User ID and filename cannot be empty")
                } else {
                    None
                }
            },
        };
        match reason {
            Some(text) => Err(BridgeError::InvalidRequest { reason: text.to_owned() }),
            None => Ok(()),
        }
    }
}

} // verus!
