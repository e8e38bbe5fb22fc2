//! Turning what the worker did into the result the user interface sees.
use vstd::prelude::*;

use crate::error::BridgeError;
use crate::invocation::path_text;
use crate::operation::Operation;
use crate::request::OperationRequest;
use crate::text::{append_decimal, decimal};

verus! {

/// What one finished run of the worker left behind: its exit code (`None`
/// when it was ended without one) and both output streams, in full.
#[derive(Clone, Debug)]
pub struct WorkerOutcome {
    pub code: Option<i32>,
    pub stdout: Vec<u8>,
    pub stderr: Vec<u8>,
}

impl WorkerOutcome {
    /// The worker exited with status zero.
    pub open spec fn spec_succeeded(&self) -> bool {
        self.code == Some(0i32)
    }
}

/// The outcome of an operation, as handed back to the user interface.
#[derive(Clone, Debug)]
pub enum OperationResult {
    /// The worker's standard output, and a confirmation line for operations
    /// that report one.
    Success { payload: String, confirmation: Option<String> },
    Failure { error: BridgeError },
}

/// The text of an optional string.
pub open spec fn opt_text(o: Option<String>) -> Option<Seq<char>> {
    match o {
        Some(s) => Some(s@),
        None => None,
    }
}

/// The text that `String::from_utf8_lossy` makes of `bytes`.
pub uninterp spec fn lossy_text(bytes: Seq<u8>) -> Seq<char>;

/// Relies on `String::from_utf8_lossy`: it decodes every byte sequence,
/// giving valid UTF-8 back as it is and an empty sequence as empty text.
#[verifier::external_body]
fn decode_lossy(bytes: &Vec<u8>) -> (r: String)
    ensures
        r@ == lossy_text(bytes@),
        vstd::utf8::valid_utf8(bytes@) ==> r@ == vstd::utf8::decode_utf8(bytes@),
        bytes@.len() == 0 ==> r@.len() == 0,
{
    String::from_utf8_lossy(bytes.as_slice()).into_owned()
}

pub open spec fn shared_prefix() -> Seq<char> {
    "File shared successfully with "@
}

pub open spec fn downloaded_prefix() -> Seq<char> {
    "File downloaded successfully to: "@
}

pub open spec fn exit_code_prefix() -> Seq<char> {
    "operation failed with exit code "@
}

pub open spec fn no_exit_code_message() -> Seq<char> {
    "operation failed: the worker ended without an exit code"@
}

/// The confirmation line that goes with a success of `req`, whose output
/// went to `output`.
pub open spec fn confirmation(req: OperationRequest, output: Option<Seq<char>>) -> Option<Seq<char>> {
    match req.operation {
        Operation::ShareFile => Some(shared_prefix() + req.recipient_email@),
        Operation::DownloadUserFile | Operation::DownloadSharedFile => match output {
            Some(p) => Some(downloaded_prefix() + p),
            None => None,
        },
        _ => None,
    }
}

/// The message of a failed run: the worker's error text when it wrote any,
/// else a generic message with the exit code.
pub open spec fn failure_message(code: Option<i32>, err: Seq<char>) -> Seq<char> {
    if err.len() > 0 {
        err
    } else {
        match code {
            Some(c) => exit_code_prefix() + decimal(c as int),
            None => no_exit_code_message(),
        }
    }
}

/// `r` is what a run with exit code `code`, standard output `out` and error
/// text `err` comes to for `req`.
pub open spec fn translates_to(
    r: OperationResult,
    req: OperationRequest,
    output: Option<Seq<char>>,
    code: Option<i32>,
    out: Seq<char>,
    err: Seq<char>,
) -> bool {
    if code == Some(0i32) {
        r matches OperationResult::Success { payload, confirmation: c }
            && payload@ == out && opt_text(c) == confirmation(req, output)
    } else {
        r matches OperationResult::Failure { error: BridgeError::WorkerFailure { message } }
            && message@ == failure_message(code, err)
    }
}

/// Translates a run whose streams are already decoded. `output` is where
/// the user chose to have the worker write, for interactive operations.
pub fn translate_decoded(
    req: &OperationRequest,
    output: Option<&str>,
    code: Option<i32>,
    stdout: String,
    stderr: String,
) -> (r: OperationResult)
    ensures
        translates_to(r, *req, path_text(output), code, stdout@, stderr@),
{
    let succeeded = match code {
        Some(c) => c == 0,
        None => false,
    };
    if succeeded {
        let confirmation = match req.operation {
            Operation::ShareFile => {
                Some("File shared successfully with ".to_owned().concat(req.recipient_email.as_str()))
            },
            Operation::DownloadUserFile | Operation::DownloadSharedFile => match output {
                Some(p) => Some("File downloaded successfully to: ".to_owned().concat(p)),
                None => None,
            },
            _ => None,
        };
        OperationResult::Success { payload: stdout, confirmation }
    } else if !stderr.as_str().is_empty() {
        OperationResult::Failure { error: BridgeError::WorkerFailure { message: stderr } }
    } else {
        let message = match code {
            Some(c) => {
                let mut m = "operation failed with exit code ".to_owned();
                append_decimal(&mut m, c);
                m
            },
            None => "operation failed: the worker ended without an exit code".to_owned(),
        };
        OperationResult::Failure { error: BridgeError::WorkerFailure { message } }
    }
}

/// Translates a finished run: both streams are decoded permissively, then
/// the exit code decides between success and failure.
pub fn translate(req: &OperationRequest, output: Option<&str>, outcome: &WorkerOutcome) -> (r:
    OperationResult)
    ensures
        translates_to(
            r,
            *req,
            path_text(output),
            outcome.code,
            lossy_text(outcome.stdout@),
            lossy_text(outcome.stderr@),
        ),
{
    let stdout = decode_lossy(&outcome.stdout);
    let stderr = decode_lossy(&outcome.stderr);
    translate_decoded(req, output, outcome.code, stdout, stderr)
}

/// `needle` occurs in `hay` as a contiguous run of characters.
pub open spec fn contains_text(hay: Seq<char>, needle: Seq<char>) -> bool {
    exists|k: int| 0 <= k && k + needle.len() <= hay.len()
        && #[trigger] hay.subrange(k, k + needle.len()) == needle
}

/// How a finished run is reported: a zero exit yields its standard output
/// exactly; a non-zero exit with error text yields a failure whose message
/// is that text; a non-zero exit without error text yields a non-empty
/// failure message that carries the exit code.
pub proof fn law_outcome_translation(
    r: OperationResult,
    req: OperationRequest,
    output: Option<Seq<char>>,
    code: Option<i32>,
    out: Seq<char>,
    err: Seq<char>,
)
    requires
        translates_to(r, req, output, code, out, err),
    ensures
        code == Some(0i32) ==> (r matches OperationResult::Success { payload, .. } && payload@ == out),
        code != Some(0i32) && err.len() > 0 ==> (r matches OperationResult::Failure {
            error: BridgeError::WorkerFailure { message },
        } && message@ == err),
        code is Some && code->0 != 0 && err.len() == 0 ==> (r matches OperationResult::Failure {
            error: BridgeError::WorkerFailure { message },
        } && message@.len() > 0 && contains_text(message@, decimal(code->0 as int))),
{
    if let Some(c) = code {
        if c != 0 && err.len() == 0 {
            law_silent_failure_names_code(c);
        }
    }
}

/// A finished run's result depends on nothing but its own request, chosen
/// path, exit code and streams: two results of the same run agree in kind
/// and in every text they carry, whatever other operations are in flight.
pub proof fn law_outcome_determines_result(
    r1: OperationResult,
    r2: OperationResult,
    req: OperationRequest,
    output: Option<Seq<char>>,
    code: Option<i32>,
    out: Seq<char>,
    err: Seq<char>,
)
    requires
        translates_to(r1, req, output, code, out, err),
        translates_to(r2, req, output, code, out, err),
    ensures
        r1 matches OperationResult::Success { payload: p1, confirmation: c1 } ==> (
        r2 matches OperationResult::Success { payload: p2, confirmation: c2 } && p1@ == p2@
            && opt_text(c1) == opt_text(c2)),
        r1 matches OperationResult::Failure { error: e1 } ==> (
        r2 matches OperationResult::Failure { error: e2 } && e1.spec_message() == e2.spec_message()),
{
}

/// When the worker fails without writing an error text, the message is
/// still not empty and carries the decimal exit code.
pub proof fn law_silent_failure_names_code(code: i32)
    requires
        code != 0,
    ensures
        failure_message(Some(code), Seq::empty()).len() > 0,
        contains_text(failure_message(Some(code), Seq::empty()), decimal(code as int)),
{
    let m = failure_message(Some(code), Seq::empty());
    let k = exit_code_prefix().len() as int;
    assert(m.subrange(k, k + decimal(code as int).len()) =~= decimal(code as int));
}

} // verus!
