//! The closed set of operations the bridge offers, with the fields each one
//! needs and the name under which the user interface calls it.
use vstd::prelude::*;

use crate::error::BridgeError;

verus! {

/// One named document operation.
#[derive(Clone, Copy, Debug, PartialEq, Eq, Structural)]
pub enum Operation {
    ProcessFile,
    ListUserMetadata,
    ListSharedMetadata,
    DownloadUserFile,
    DownloadSharedFile,
    RedactUserFile,
    GetDocumentSummary,
    DeleteUserFile,
    ShareFile,
}

/// Every operation, each once, in the order the registry lists them.
pub open spec fn all_operations() -> Seq<Operation> {
    seq![
        Operation::ProcessFile,
        Operation::ListUserMetadata,
        Operation::ListSharedMetadata,
        Operation::DownloadUserFile,
        Operation::DownloadSharedFile,
        Operation::RedactUserFile,
        Operation::GetDocumentSummary,
        Operation::DeleteUserFile,
        Operation::ShareFile,
    ]
}

impl Operation {
    /// The name under which the user interface dispatches this operation.
    pub open spec fn spec_name(self) -> Seq<char> {
        match self {
            Operation::ProcessFile => "process_file"@,
            Operation::ListUserMetadata => "list_user_metadata"@,
            Operation::ListSharedMetadata => "list_shared_metadata"@,
            Operation::DownloadUserFile => "download_user_file"@,
            Operation::DownloadSharedFile => "download_shared_file"@,
            Operation::RedactUserFile => "redact_user_file"@,
            Operation::GetDocumentSummary => "get_document_summary"@,
            Operation::DeleteUserFile => "delete_user_file"@,
            Operation::ShareFile => "share_file"@,
        }
    }

    /// Whether the request must name a file.
    pub open spec fn needs_filename(self) -> bool {
        !(self is ListUserMetadata || self is ListSharedMetadata)
    }

    /// Whether the request must name a recipient.
    pub open spec fn needs_recipient(self) -> bool {
        self is ShareFile
    }

    /// Whether the user picks where the worker writes before it runs.
    pub open spec fn spec_is_interactive(self) -> bool {
        self is DownloadUserFile || self is DownloadSharedFile || self is RedactUserFile
    }

    /// Whether a success is reported together with a confirmation line.
    pub open spec fn confirms(self) -> bool {
        self is ShareFile || self is DownloadUserFile || self is DownloadSharedFile
    }

    pub fn name(&self) -> (r: &'static str)
        ensures
            r@ == self.spec_name(),
    {
        match self {
            Operation::ProcessFile => "process_file",
            Operation::ListUserMetadata => "list_user_metadata",
            Operation::ListSharedMetadata => "list_shared_metadata",
            Operation::DownloadUserFile => "download_user_file",
            Operation::DownloadSharedFile => "download_shared_file",
            Operation::RedactUserFile => "redact_user_file",
            Operation::GetDocumentSummary => "get_document_summary",
            Operation::DeleteUserFile => "delete_user_file",
            Operation::ShareFile => "share_file",
        }
    }

    pub fn is_interactive(&self) -> (r: bool)
        ensures
            r == self.spec_is_interactive(),
    {
        match self {
            Operation::DownloadUserFile | Operation::DownloadSharedFile
            | Operation::RedactUserFile => true,
            _ => false,
        }
    }

    /// The registered operations: every operation, each exactly once.
    pub fn registered() -> (r: Vec<Operation>)
        ensures
            r@ == all_operations(),
    {
        let r = vec![
            Operation::ProcessFile,
            Operation::ListUserMetadata,
            Operation::ListSharedMetadata,
            Operation::DownloadUserFile,
            Operation::DownloadSharedFile,
            Operation::RedactUserFile,
            Operation::GetDocumentSummary,
            Operation::DeleteUserFile,
            Operation::ShareFile,
        ];
        assert(r@ =~= all_operations());
        r
    }

    /// Looks an operation up by the name the user interface sends.
    pub fn from_name(name: &str) -> (r: Result<Operation, BridgeError>)
        ensures
            r matches Ok(op) ==> op.spec_name() == name@,
            r is Err <==> (forall|op: Operation| op.spec_name() != name@),
            r matches Err(e) ==> (e matches BridgeError::UnknownOperation { name: n } && n@ == name@),
    {
        let ops = Operation::registered();
        let wanted = name.to_owned();
        let mut i: usize = 0;
        while i < ops.len()
            invariant
                ops@ == all_operations(),
                wanted@ == name@,
                0 <= i <= ops@.len(),
                forall|j: int| 0 <= j < i ==> ops@[j].spec_name() != name@,
            decreases ops.len() - i,
        {
            let op = ops[i];
            let candidate = op.name().to_owned();
            if candidate == wanted {
                return Ok(op);
            }
            i = i + 1;
        }
        proof {
            assert forall|op: Operation| op.spec_name() != name@ by {
                lemma_registered_covers(op);
            }
        }
        Err(BridgeError::UnknownOperation { name: wanted })
    }
}

proof fn lemma_registered_covers(op: Operation)
    ensures
        exists|j: int| 0 <= j < all_operations().len() && all_operations()[j] == op,
{
    match op {
        Operation::ProcessFile => assert(all_operations()[0] == op),
        Operation::ListUserMetadata => assert(all_operations()[1] == op),
        Operation::ListSharedMetadata => assert(all_operations()[2] == op),
        Operation::DownloadUserFile => assert(all_operations()[3] == op),
        Operation::DownloadSharedFile => assert(all_operations()[4] == op),
        Operation::RedactUserFile => assert(all_operations()[5] == op),
        Operation::GetDocumentSummary => assert(all_operations()[6] == op),
        Operation::DeleteUserFile => assert(all_operations()[7] == op),
        Operation::ShareFile => assert(all_operations()[8] == op),
    }
}

/// The registry holds every operation exactly once: each operation appears
/// in it, no entry is repeated, and no two operations share a name, so a
/// name dispatches to at most one operation.
pub proof fn law_registry_is_closed(a: Operation, b: Operation)
    ensures
        all_operations().contains(a),
        all_operations().no_duplicates(),
        a.spec_name() == b.spec_name() ==> a == b,
{
    lemma_registered_covers(a);
    reveal_strlit("process_file");
    reveal_strlit("list_user_metadata");
    reveal_strlit("list_shared_metadata");
    reveal_strlit("download_user_file");
    reveal_strlit("download_shared_file");
    reveal_strlit("redact_user_file");
    reveal_strlit("get_document_summary");
    reveal_strlit("delete_user_file");
    reveal_strlit("share_file");
    if a.spec_name() == b.spec_name() && a != b {
        let (x, y) = (a.spec_name(), b.spec_name());
        assert(x.len() == y.len());
        assert(x[0] == y[0]);
        assert(x[5] == y[5]);
        assert(x[9] == y[9]);
    }
}

} // verus!
