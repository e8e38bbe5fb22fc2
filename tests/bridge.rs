use doc_bridge::bridge::{PickedPath, Registry, Step};
use doc_bridge::error::BridgeError;
use doc_bridge::invocation::{WorkerCommand, WorkerConfig, WorkerInvocation};
use doc_bridge::operation::Operation;
use doc_bridge::request::OperationRequest;
use doc_bridge::text::{append_decimal, redacted_file_name};
use doc_bridge::translate::{translate, translate_decoded, OperationResult, WorkerOutcome};

fn cmd(name: &str) -> WorkerCommand {
    WorkerCommand { program: "python".to_string(), script: format!("/srv/worker/{}.py", name) }
}

fn config() -> WorkerConfig {
    WorkerConfig {
        process_file: WorkerCommand { program: "/opt/python/bin/python3".to_string(), script: "/srv/worker/main.py".to_string() },
        list_user_metadata: cmd("list_metadata"),
        list_shared_metadata: cmd("list_shared_metadata"),
        download_user_file: cmd("download_user_file"),
        download_shared_file: cmd("download_shared_data"),
        redact_user_file: cmd("redact_user_file"),
        get_document_summary: cmd("get_summary"),
        delete_user_file: cmd("delete_user_file"),
        share_file: cmd("sharing"),
    }
}

fn request(operation: Operation, user: &str, file: &str, mail: &str) -> OperationRequest {
    OperationRequest {
        operation,
        user_id: user.to_string(),
        filename: file.to_string(),
        recipient_email: mail.to_string(),
    }
}

fn outcome(code: Option<i32>, out: &str, err: &str) -> WorkerOutcome {
    WorkerOutcome { code, stdout: out.as_bytes().to_vec(), stderr: err.as_bytes().to_vec() }
}

/// Runs one operation to its end with a prompt answer and a worker stub,
/// counting how often the stub is started.
fn drive(
    reg: &Registry,
    req: &OperationRequest,
    pick: PickedPath,
    spawns: &mut usize,
    worker: &dyn Fn(&WorkerInvocation) -> Result<WorkerOutcome, String>,
) -> OperationResult {
    let mut chosen: Option<String> = None;
    let mut step = reg.begin(req);
    let mut pick = Some(pick);
    loop {
        match step {
            Step::Done(r) => return r,
            Step::Pick { .. } => {
                let p = pick.take().expect("the prompt is shown once");
                if let PickedPath::Chosen(s) = &p {
                    chosen = Some(s.clone());
                }
                step = reg.after_pick(req, p);
            }
            Step::Run(inv) => {
                *spawns += 1;
                let run = worker(&inv);
                return Registry::finish(req, chosen.as_deref(), run);
            }
        }
    }
}

fn payload(r: &OperationResult) -> (String, Option<String>) {
    match r {
        OperationResult::Success { payload, confirmation } => (payload.clone(), confirmation.clone()),
        other => panic!("expected success, got {:?}", other),
    }
}

fn failure_message(r: &OperationResult) -> String {
    match r {
        OperationResult::Failure { error: BridgeError::WorkerFailure { message } } => message.clone(),
        other => panic!("expected a worker failure, got {:?}", other),
    }
}

#[test]
fn redacted_name_strips_extension() {
    assert_eq!(redacted_file_name("report.pdf"), "report_redacted.pdf");
}

#[test]
fn redacted_name_splits_on_first_dot() {
    assert_eq!(redacted_file_name("archive.tar.gz"), "archive_redacted.pdf");
}

#[test]
fn redacted_name_edge_cases() {
    assert_eq!(redacted_file_name("notes"), "notes_redacted.pdf");
    assert_eq!(redacted_file_name(".hidden"), "_redacted.pdf");
    assert_eq!(redacted_file_name(""), "_redacted.pdf");
    assert_eq!(redacted_file_name("résumé.docx"), "résumé_redacted.pdf");
}

#[test]
fn decimal_forms() {
    for (n, text) in [(0, "0"), (7, "7"), (42, "42"), (-1, "-1"), (i32::MAX, "2147483647"), (i32::MIN, "-2147483648")] {
        let mut s = String::from("code ");
        append_decimal(&mut s, n);
        assert_eq!(s, format!("code {}", text));
    }
}

#[test]
fn invalid_requests_spawn_nothing() {
    let reg = Registry::new(config());
    let cases = [
        (request(Operation::ProcessFile, "", "a.pdf", ""), "File path and user ID cannot be empty"),
        (request(Operation::ProcessFile, "u1", "", ""), "File path and user ID cannot be empty"),
        (request(Operation::ShareFile, "u1", "a.pdf", ""), "User ID, filename, and recipient email cannot be empty"),
        (request(Operation::ShareFile, "", "a.pdf", "b@example.com"), "User ID, filename, and recipient email cannot be empty"),
        (request(Operation::ListUserMetadata, "", "", ""), "User ID cannot be empty"),
        (request(Operation::ListSharedMetadata, "", "x", "y"), "User ID cannot be empty"),
        (request(Operation::DownloadUserFile, "u1", "", ""), "User ID and filename cannot be empty"),
        (request(Operation::DownloadSharedFile, "", "a.pdf", ""), "User ID and filename cannot be empty"),
        (request(Operation::RedactUserFile, "u1", "", ""), "User ID and filename cannot be empty"),
        (request(Operation::GetDocumentSummary, "", "a.pdf", ""), "User ID and filename cannot be empty"),
        (request(Operation::DeleteUserFile, "u1", "", ""), "User ID and filename cannot be empty"),
    ];
    let mut spawns = 0usize;
    for (req, reason) in cases.iter() {
        let r = drive(&reg, req, PickedPath::Chosen("/tmp/out.pdf".to_string()), &mut spawns, &|_| {
            Ok(outcome(Some(0), "", ""))
        });
        match r {
            OperationResult::Failure { error: BridgeError::InvalidRequest { reason: got } } => assert_eq!(&got, reason),
            other => panic!("expected an invalid request, got {:?}", other),
        }
    }
    assert_eq!(spawns, 0);
}

#[test]
fn list_needs_only_the_user() {
    let req = request(Operation::ListUserMetadata, "u1", "", "");
    assert!(req.validate().is_ok());
}

#[test]
fn success_payload_is_stdout_exactly() {
    let req = request(Operation::GetDocumentSummary, "u1", "a.pdf", "");
    let r = translate(&req, None, &outcome(Some(0), "X", "warning on stderr"));
    assert_eq!(payload(&r), ("X".to_string(), None));
}

#[test]
fn failure_message_is_stderr() {
    let req = request(Operation::DeleteUserFile, "u1", "a.pdf", "");
    let r = translate(&req, None, &outcome(Some(2), "partial", "Y"));
    assert_eq!(failure_message(&r), "Y");
}

#[test]
fn silent_failure_reports_exit_code() {
    let req = request(Operation::DeleteUserFile, "u1", "a.pdf", "");
    let m = failure_message(&translate(&req, None, &outcome(Some(3), "", "")));
    assert_eq!(m, "operation failed with exit code 3");
    let m = failure_message(&translate(&req, None, &outcome(Some(-7), "out", "")));
    assert_eq!(m, "operation failed with exit code -7");
    assert!(m.contains("-7"));
    let m = failure_message(&translate(&req, None, &outcome(None, "", "")));
    assert_eq!(m, "operation failed: the worker ended without an exit code");
}

#[test]
fn streams_are_decoded_permissively() {
    let req = request(Operation::GetDocumentSummary, "u1", "a.pdf", "");
    let bad = WorkerOutcome { code: Some(0), stdout: vec![b'o', b'k', 0xff, b'!'], stderr: vec![] };
    assert_eq!(payload(&translate(&req, None, &bad)).0, "ok\u{FFFD}!");
    let bad = WorkerOutcome { code: Some(1), stdout: vec![], stderr: vec![0xc3] };
    assert_eq!(failure_message(&translate(&req, None, &bad)), "\u{FFFD}");
    let good = WorkerOutcome { code: Some(0), stdout: "résumé".as_bytes().to_vec(), stderr: vec![] };
    assert_eq!(payload(&translate(&req, None, &good)).0, "résumé");
}

#[test]
fn decoded_translation_is_exact() {
    let req = request(Operation::ShareFile, "u1", "a.pdf", "b@example.com");
    let r = translate_decoded(&req, None, Some(0), "shared".to_string(), String::new());
    assert_eq!(
        payload(&r),
        ("shared".to_string(), Some("File shared successfully with b@example.com".to_string()))
    );
    let r = translate_decoded(&req, None, Some(1), String::new(), "no such file".to_string());
    assert_eq!(failure_message(&r), "no such file");
}

#[test]
fn cancelled_picker_spawns_nothing() {
    let reg = Registry::new(config());
    let mut spawns = 0usize;
    for op in [Operation::DownloadUserFile, Operation::DownloadSharedFile, Operation::RedactUserFile] {
        let req = request(op, "u1", "a.pdf", "");
        let r = drive(&reg, &req, PickedPath::Cancelled, &mut spawns, &|_| Ok(outcome(Some(0), "", "")));
        assert!(matches!(r, OperationResult::Failure { error: BridgeError::UserCancelled }));
        let r = drive(&reg, &req, PickedPath::Unrepresentable, &mut spawns, &|_| Ok(outcome(Some(0), "", "")));
        assert!(matches!(r, OperationResult::Failure { error: BridgeError::UnrepresentablePath }));
        let r = drive(&reg, &req, PickedPath::Chosen(String::new()), &mut spawns, &|_| Ok(outcome(Some(0), "", "")));
        assert!(matches!(r, OperationResult::Failure { error: BridgeError::UnrepresentablePath }));
    }
    assert_eq!(spawns, 0);
}

#[test]
fn redaction_suggests_default_name_and_passes_path_last() {
    let reg = Registry::new(config());
    let req = request(Operation::RedactUserFile, "u1", "archive.tar.gz", "");
    match reg.begin(&req) {
        Step::Pick { suggested_name } => assert_eq!(suggested_name, "archive_redacted.pdf"),
        other => panic!("expected a prompt, got {:?}", other),
    }
    match reg.after_pick(&req, PickedPath::Chosen("/home/u/out.pdf".to_string())) {
        Step::Run(inv) => {
            assert_eq!(inv.program, "python");
            assert_eq!(inv.args, vec!["/srv/worker/redact_user_file.py", "u1", "archive.tar.gz", "/home/u/out.pdf"]);
        }
        other => panic!("expected a run, got {:?}", other),
    }
}

#[test]
fn download_suggests_filename_and_confirms_path() {
    let reg = Registry::new(config());
    let req = request(Operation::DownloadSharedFile, "u1", "a.pdf", "");
    match reg.begin(&req) {
        Step::Pick { suggested_name } => assert_eq!(suggested_name, "a.pdf"),
        other => panic!("expected a prompt, got {:?}", other),
    }
    let mut spawns = 0usize;
    let r = drive(&reg, &req, PickedPath::Chosen("/d/a.pdf".to_string()), &mut spawns, &|inv| {
        assert_eq!(inv.args, vec!["/srv/worker/download_shared_data.py", "u1", "a.pdf", "/d/a.pdf"]);
        Ok(outcome(Some(0), "saved", ""))
    });
    assert_eq!(spawns, 1);
    assert_eq!(payload(&r), ("saved".to_string(), Some("File downloaded successfully to: /d/a.pdf".to_string())));
}

#[test]
fn argument_order_per_operation() {
    let reg = Registry::new(config());
    let cases = [
        (Operation::ProcessFile, "/opt/python/bin/python3", vec!["/srv/worker/main.py", "u1", "a.pdf"]),
        (Operation::ListUserMetadata, "python", vec!["/srv/worker/list_metadata.py", "u1"]),
        (Operation::ListSharedMetadata, "python", vec!["/srv/worker/list_shared_metadata.py", "u1"]),
        (Operation::GetDocumentSummary, "python", vec!["/srv/worker/get_summary.py", "u1", "a.pdf"]),
        (Operation::DeleteUserFile, "python", vec!["/srv/worker/delete_user_file.py", "u1", "a.pdf"]),
        (Operation::ShareFile, "python", vec!["/srv/worker/sharing.py", "u1", "a.pdf"]),
    ];
    for (op, program, args) in cases {
        match reg.begin(&request(op, "u1", "a.pdf", "b@example.com")) {
            Step::Run(inv) => {
                assert_eq!(inv.program, program);
                assert_eq!(inv.args, args);
            }
            other => panic!("expected a run for {:?}, got {:?}", op, other),
        }
    }
}

#[test]
fn spawn_error_is_reported() {
    let req = request(Operation::ProcessFile, "u1", "a.pdf", "");
    let r = Registry::finish(&req, None, Err("program not found".to_string()));
    match r {
        OperationResult::Failure { error: BridgeError::SpawnError { cause } } => assert_eq!(cause, "program not found"),
        other => panic!("expected a spawn error, got {:?}", other),
    }
}

#[test]
fn dispatch_by_name() {
    let reg = Registry::new(config());
    for op in Operation::registered() {
        let (req, step) = reg.dispatch(op.name(), "u1".to_string(), "a.pdf".to_string(), "b@example.com".to_string());
        assert_eq!(req.expect("known name").operation, op);
        assert!(!matches!(step, Step::Done(_)));
        assert_eq!(Operation::from_name(op.name()).ok(), Some(op));
    }
    let (req, step) = reg.dispatch("format_disk", "u1".to_string(), String::new(), String::new());
    assert!(req.is_none());
    match step {
        Step::Done(OperationResult::Failure { error: BridgeError::UnknownOperation { name } }) => assert_eq!(name, "format_disk"),
        other => panic!("expected an unknown operation, got {:?}", other),
    }
}

#[test]
fn registry_names_are_distinct() {
    let ops = Operation::registered();
    assert_eq!(ops.len(), 9);
    for (i, a) in ops.iter().enumerate() {
        for b in ops.iter().skip(i + 1) {
            assert_ne!(a, b);
            assert_ne!(a.name(), b.name());
        }
    }
}

#[test]
fn concurrent_operations_do_not_interfere() {
    let reg = Registry::new(config());
    let n = 16usize;
    let reqs: Vec<OperationRequest> =
        (0..n).map(|i| request(Operation::GetDocumentSummary, &format!("u{}", i), &format!("f{}.pdf", i), "")).collect();
    // Start every operation before any finishes, then finish them in reverse order.
    let steps: Vec<Step> = reqs.iter().map(|r| reg.begin(r)).collect();
    let mut results: Vec<Option<OperationResult>> = (0..n).map(|_| None).collect();
    for i in (0..n).rev() {
        let run = match &steps[i] {
            Step::Run(inv) => {
                assert_eq!(inv.args[1], format!("u{}", i));
                if i % 2 == 0 {
                    Ok(outcome(Some(0), &format!("summary {}", i), ""))
                } else {
                    Ok(outcome(Some(i as i32), "", &format!("error {}", i)))
                }
            }
            other => panic!("expected a run, got {:?}", other),
        };
        results[i] = Some(Registry::finish(&reqs[i], None, run));
    }
    for (i, r) in results.iter().enumerate() {
        let r = r.as_ref().unwrap();
        if i % 2 == 0 {
            assert_eq!(payload(r), (format!("summary {}", i), None));
        } else {
            assert_eq!(failure_message(r), format!("error {}", i));
        }
    }
}

#[test]
fn error_messages() {
    assert_eq!(BridgeError::UserCancelled.message(), "Save cancelled");
    assert_eq!(BridgeError::UnrepresentablePath.message(), "Path contains invalid characters");
    assert_eq!(BridgeError::SpawnError { cause: "not found".to_string() }.message(), "Failed to execute the worker: not found");
    assert_eq!(BridgeError::UnknownOperation { name: "x".to_string() }.message(), "Unknown operation: x");
    assert_eq!(BridgeError::InvalidRequest { reason: "r".to_string() }.message(), "r");
    assert_eq!(BridgeError::WorkerFailure { message: "m".to_string() }.message(), "m");
}
