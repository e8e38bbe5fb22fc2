//! The steps of one operation: validation, the optional save prompt, the
//! worker run and the translation of its outcome. The caller performs each
//! step's action (showing the prompt, running the worker) and hands back
//! what came of it.
use vstd::prelude::*;

use crate::error::BridgeError;
use crate::invocation::{path_text, WorkerConfig, WorkerInvocation};
use crate::operation::Operation;
use crate::request::OperationRequest;
use crate::text::{redacted_file_name, redacted_suffix, stem};
use crate::translate::{translate, translates_to, lossy_text, OperationResult, WorkerOutcome};

verus! {

/// What the save prompt came to.
#[derive(Clone, Debug)]
pub enum PickedPath {
    /// The user dismissed the prompt.
    Cancelled,
    /// The user chose a location that has no textual path.
    Unrepresentable,
    /// The user chose this path.
    Chosen(String),
}

/// What to do next for an operation.
#[derive(Clone, Debug)]
pub enum Step {
    /// The operation is over with this result; no worker was started.
    Done(OperationResult),
    /// Ask the user where to save, suggesting this file name.
    Pick { suggested_name: String },
    /// Run the worker as given.
    Run(WorkerInvocation),
}

/// The file name that the save prompt suggests for `req`.
pub open spec fn suggested_name(req: OperationRequest) -> Seq<char> {
    if req.operation is RedactUserFile {
        stem(req.filename@) + redacted_suffix()
    } else {
        req.filename@
    }
}

/// The fixed set of operations, bound to the worker configuration given at
/// startup.
pub struct Registry {
    pub config: WorkerConfig,
}

impl Registry {
    /// `step` is the first step of `req`: a request with an empty required
    /// field ends at once; a valid interactive one asks where to save; any
    /// other valid one runs the worker.
    pub open spec fn begins_with(&self, req: &OperationRequest, step: Step) -> bool {
        &&& !req.spec_is_valid() ==> (step matches Step::Done(
            OperationResult::Failure { error: BridgeError::InvalidRequest { reason } },
        ) && reason@ == OperationRequest::spec_invalid_reason(req.operation))
        &&& req.spec_is_valid() && req.operation.spec_is_interactive() ==> (step matches Step::Pick {
            suggested_name: s,
        } && s@ == suggested_name(*req))
        &&& req.spec_is_valid() && !req.operation.spec_is_interactive() ==> (step matches Step::Run(
            inv,
        ) && inv.spec_runs(&self.config, req, None))
    }

    pub fn new(config: WorkerConfig) -> (r: Registry)
        ensures
            r.config == config,
    {
        Registry { config }
    }

    /// The first step of `req`. A request with an empty required field ends
    /// here, before any prompt or worker run.
    pub fn begin(&self, req: &OperationRequest) -> (r: Step)
        ensures
            self.begins_with(req, r),
    {
        match req.validate() {
            Err(error) => Step::Done(OperationResult::Failure { error }),
            Ok(()) => {
                if req.operation.is_interactive() {
                    let suggested_name = match req.operation {
                        Operation::RedactUserFile => redacted_file_name(req.filename.as_str()),
                        _ => req.filename.as_str().to_owned(),
                    };
                    Step::Pick { suggested_name }
                } else {
                    Step::Run(WorkerInvocation::build(&self.config, req, None))
                }
            },
        }
    }

    /// The step after the save prompt. Dismissing it ends the operation
    /// before any worker run, and so does a location with no usable path.
    pub fn after_pick(&self, req: &OperationRequest, picked: PickedPath) -> (r: Step)
        ensures
            picked is Cancelled ==> (r matches Step::Done(
                OperationResult::Failure { error: BridgeError::UserCancelled },
            )),
            picked is Unrepresentable ==> (r matches Step::Done(
                OperationResult::Failure { error: BridgeError::UnrepresentablePath },
            )),
            picked matches PickedPath::Chosen(p) ==> (if p@.len() == 0 {
                r matches Step::Done(
                    OperationResult::Failure { error: BridgeError::UnrepresentablePath },
                )
            } else {
                r matches Step::Run(inv) && inv.spec_runs(&self.config, req, Some(p@))
            }),
    {
        match picked {
            PickedPath::Cancelled => Step::Done(
                OperationResult::Failure { error: BridgeError::UserCancelled },
            ),
            PickedPath::Unrepresentable => Step::Done(
                OperationResult::Failure { error: BridgeError::UnrepresentablePath },
            ),
            PickedPath::Chosen(p) => {
                if p.as_str().is_empty() {
                    Step::Done(OperationResult::Failure { error: BridgeError::UnrepresentablePath })
                } else {
                    Step::Run(WorkerInvocation::build(&self.config, req, Some(p.as_str())))
                }
            },
        }
    }

    /// The result of `req` once the worker run is over: `Err` when the
    /// worker could not be started, with the cause; else its outcome
    /// translated. `output` is the path the user chose, if any.
    pub fn finish(
        req: &OperationRequest,
        output: Option<&str>,
        run: Result<WorkerOutcome, String>,
    ) -> (r: OperationResult)
        ensures
            run matches Err(cause) ==> (r matches OperationResult::Failure {
                error: BridgeError::SpawnError { cause: c },
            } && c@ == cause@),
            run matches Ok(o) ==> translates_to(
                r,
                *req,
                path_text(output),
                o.code,
                lossy_text(o.stdout@),
                lossy_text(o.stderr@),
            ),
    {
        match run {
            Err(cause) => OperationResult::Failure { error: BridgeError::SpawnError { cause } },
            Ok(o) => translate(req, output, &o),
        }
    }

    /// Starts the operation that the user interface calls `name`. An unknown
    /// name ends here with `UnknownOperation`; otherwise this is `begin` on
    /// the request built from the arguments.
    pub fn dispatch(
        &self,
        name: &str,
        user_id: String,
        filename: String,
        recipient_email: String,
    ) -> (r: (Option<OperationRequest>, Step))
        ensures
            (forall|op: Operation| op.spec_name() != name@) ==> (r.0 is None && (r.1 matches Step::Done(
                OperationResult::Failure { error: BridgeError::UnknownOperation { name: n } },
            ) && n@ == name@)),
            forall|op: Operation| op.spec_name() == name@ ==> (r.0 matches Some(req) && req == (
            OperationRequest { operation: op, user_id, filename, recipient_email })
                && self.begins_with(&req, r.1)),
    {
        match Operation::from_name(name) {
            Err(error) => (None, Step::Done(OperationResult::Failure { error })),
            Ok(operation) => {
                proof {
                    assert forall|op: Operation| op.spec_name() == name@ implies op == operation by {
                        crate::operation::law_registry_is_closed(op, operation);
                    }
                }
                let req = OperationRequest { operation, user_id, filename, recipient_email };
                let step = self.begin(&req);
                (Some(req), step)
            },
        }
    }
}

} // verus!
