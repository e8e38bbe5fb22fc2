//! Building the worker's command line for an operation.
use vstd::prelude::*;

use crate::operation::Operation;
use crate::request::OperationRequest;

verus! {

/// The program to run for an operation and the entry script it is given.
#[derive(Clone, Debug)]
pub struct WorkerCommand {
    pub program: String,
    pub script: String,
}

/// Where the worker lives for each operation. Built once at startup and
/// passed to the bridge; never changed afterwards.
#[derive(Clone, Debug)]
pub struct WorkerConfig {
    pub process_file: WorkerCommand,
    pub list_user_metadata: WorkerCommand,
    pub list_shared_metadata: WorkerCommand,
    pub download_user_file: WorkerCommand,
    pub download_shared_file: WorkerCommand,
    pub redact_user_file: WorkerCommand,
    pub get_document_summary: WorkerCommand,
    pub delete_user_file: WorkerCommand,
    pub share_file: WorkerCommand,
}

impl WorkerConfig {
    pub open spec fn spec_command(&self, op: Operation) -> WorkerCommand {
        match op {
            Operation::ProcessFile => self.process_file,
            Operation::ListUserMetadata => self.list_user_metadata,
            Operation::ListSharedMetadata => self.list_shared_metadata,
            Operation::DownloadUserFile => self.download_user_file,
            Operation::DownloadSharedFile => self.download_shared_file,
            Operation::RedactUserFile => self.redact_user_file,
            Operation::GetDocumentSummary => self.get_document_summary,
            Operation::DeleteUserFile => self.delete_user_file,
            Operation::ShareFile => self.share_file,
        }
    }

    /// The worker command configured for `op`.
    pub fn command(&self, op: Operation) -> (r: &WorkerCommand)
        ensures
            *r == self.spec_command(op),
    {
        match op {
            Operation::ProcessFile => &self.process_file,
            Operation::ListUserMetadata => &self.list_user_metadata,
            Operation::ListSharedMetadata => &self.list_shared_metadata,
            Operation::DownloadUserFile => &self.download_user_file,
            Operation::DownloadSharedFile => &self.download_shared_file,
            Operation::RedactUserFile => &self.redact_user_file,
            Operation::GetDocumentSummary => &self.get_document_summary,
            Operation::DeleteUserFile => &self.delete_user_file,
            Operation::ShareFile => &self.share_file,
        }
    }
}

/// One run of the worker: the program and its arguments, in order.
#[derive(Clone, Debug)]
pub struct WorkerInvocation {
    pub program: String,
    pub args: Vec<String>,
}

/// The text of an optional path.
pub open spec fn path_text(o: Option<&str>) -> Option<Seq<char>> {
    match o {
        Some(p) => Some(p@),
        None => None,
    }
}

/// The text of each string in `v`.
pub open spec fn texts(v: Seq<String>) -> Seq<Seq<char>> {
    v.map_values(|s: String| s@)
}

/// The worker's positional arguments: the entry script, the user, the file
/// when the operation names one, and last the chosen output path when there
/// is one.
pub open spec fn worker_args(
    script: Seq<char>,
    req: OperationRequest,
    output: Option<Seq<char>>,
) -> Seq<Seq<char>> {
    seq![script, req.user_id@]
        + (if req.operation.needs_filename() { seq![req.filename@] } else { Seq::empty() })
        + (match output { Some(p) => seq![p], None => Seq::empty() })
}

impl WorkerInvocation {
    /// The program and arguments that run `req` with `cfg`.
    pub open spec fn spec_runs(
        &self,
        cfg: &WorkerConfig,
        req: &OperationRequest,
        output: Option<Seq<char>>,
    ) -> bool {
        &&& self.program@ == cfg.spec_command(req.operation).program@
        &&& texts(self.args@) == worker_args(cfg.spec_command(req.operation).script@, *req, output)
    }

    /// Builds the invocation for `req`, handing `output` over as the last
    /// argument when it is given.
    pub fn build(cfg: &WorkerConfig, req: &OperationRequest, output: Option<&str>) -> (r:
        WorkerInvocation)
        ensures
            r.spec_runs(cfg, req, path_text(output)),
    {
        let cmd = cfg.command(req.operation);
        let mut args: Vec<String> = Vec::new();
        args.push(cmd.script.clone());
        args.push(req.user_id.clone());
        let needs_file = match req.operation {
            Operation::ListUserMetadata | Operation::ListSharedMetadata => false,
            _ => true,
        };
        if needs_file {
            args.push(req.filename.clone());
        }
        match output {
            Some(p) => args.push(p.to_owned()),
            None => {},
        }
        assert(texts(args@) =~= worker_args(cmd.script@, *req, path_text(output)));
        WorkerInvocation { program: cmd.program.clone(), args }
    }
}

} // verus!
