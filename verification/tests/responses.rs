use plc_node::error::PlcError;
use plc_node::responses::{
    compilation_poll_outcome, create_user_outcome, start_outcome, status_outcome, upload_outcome,
    CompilationPoll, CompilationStatus, PlcStatusResponse, UploadResponse,
};
use plc_node::state::PlcState;

fn report(status: &str, logs: Option<Vec<&str>>, exit_code: Option<i32>) -> Option<CompilationStatus> {
    Some(CompilationStatus {
        status: status.to_string(),
        logs: logs.map(|v| v.into_iter().map(|s| s.to_string()).collect()),
        exit_code,
    })
}

fn plc_status(s: &str) -> Option<PlcStatusResponse> {
    Some(PlcStatusResponse { status: s.to_string() })
}

#[test]
fn create_user_first_run_is_success() {
    assert!(create_user_outcome(201).is_ok(), "201 should be treated as success");
    assert!(create_user_outcome(200).is_ok());
}

#[test]
fn create_user_already_exists_is_success() {
    assert!(create_user_outcome(409).is_ok(), "409 should be treated as success");
}

#[test]
fn create_user_server_error_is_error() {
    assert_eq!(create_user_outcome(500), Err(PlcError::HttpStatus(500)));
    assert_eq!(create_user_outcome(401), Err(PlcError::HttpStatus(401)));
    assert_eq!(create_user_outcome(300), Err(PlcError::HttpStatus(300)));
    assert_eq!(create_user_outcome(199), Err(PlcError::HttpStatus(199)));
}

#[test]
fn upload_program_success() {
    let body = UploadResponse { upload_fail: String::new(), compilation_status: "COMPILING".to_string() };
    assert!(upload_outcome(200, Some(body)).is_ok());
}

#[test]
fn upload_program_rejected_carries_reason() {
    let body = UploadResponse {
        upload_fail: "Invalid zip structure".to_string(),
        compilation_status: "IDLE".to_string(),
    };
    let result = upload_outcome(200, Some(body));
    let err = result.unwrap_err();
    assert_eq!(err, PlcError::UploadRejected("Invalid zip structure".to_string()));
    assert!(err.message().contains("Invalid zip structure"));
}

#[test]
fn upload_program_server_error() {
    assert_eq!(upload_outcome(500, None), Err(PlcError::HttpStatus(500)));
    assert_eq!(upload_outcome(200, None), Err(PlcError::MalformedResponse));
}

#[test]
fn compilation_succeeds_immediately() {
    let r = compilation_poll_outcome(200, report("SUCCESS", Some(vec!["[INFO] Build succeeded"]), Some(0)), 0, 5000);
    assert_eq!(r, CompilationPoll::Finished(Ok(())));
}

#[test]
fn compilation_success_wins_over_elapsed_time() {
    let r = compilation_poll_outcome(200, report("SUCCESS", None, None), 9000, 5000);
    assert_eq!(r, CompilationPoll::Finished(Ok(())));
}

#[test]
fn compilation_fails_with_build_log() {
    let r = compilation_poll_outcome(
        200,
        report("FAILED", Some(vec!["[ERROR] undefined reference to main"]), Some(1)),
        100,
        5000,
    );
    match r {
        CompilationPoll::Finished(Err(e)) => {
            assert!(e.message().contains("undefined reference to main"));
        },
        other => panic!("unexpected {:?}", other),
    }
}

#[test]
fn compilation_failure_log_joins_lines() {
    let r = compilation_poll_outcome(200, report("FAILED", Some(vec!["a", "b", "c"]), Some(2)), 0, 10);
    assert_eq!(r, CompilationPoll::Finished(Err(PlcError::CompilationFailed("a\nb\nc".to_string()))));
    let r = compilation_poll_outcome(200, report("FAILED", None, None), 0, 10);
    assert_eq!(r, CompilationPoll::Finished(Err(PlcError::CompilationFailed(String::new()))));
}

#[test]
fn compilation_in_progress_polls_again() {
    let r = compilation_poll_outcome(200, report("COMPILING", None, None), 50, 200);
    assert_eq!(r, CompilationPoll::PollAgain);
    let r = compilation_poll_outcome(200, report("COMPILING", None, None), 199, 200);
    assert_eq!(r, CompilationPoll::PollAgain);
}

#[test]
fn compilation_times_out() {
    let r = compilation_poll_outcome(200, report("COMPILING", None, None), 200, 200);
    match r {
        CompilationPoll::Finished(Err(e)) => {
            assert_eq!(e, PlcError::CompilationTimedOut(200));
            assert!(e.message().contains("timed out"), "error should mention timeout");
            assert_eq!(e.message(), "timed out after 200ms");
        },
        other => panic!("unexpected {:?}", other),
    }
}

#[test]
fn compilation_poll_errors() {
    assert_eq!(
        compilation_poll_outcome(503, None, 0, 10),
        CompilationPoll::Finished(Err(PlcError::HttpStatus(503)))
    );
    assert_eq!(
        compilation_poll_outcome(200, None, 0, 10),
        CompilationPoll::Finished(Err(PlcError::MalformedResponse))
    );
}

#[test]
fn start_plc_success() {
    assert!(start_outcome(200, plc_status("Running")).is_ok());
}

#[test]
fn start_plc_no_program() {
    assert_eq!(
        start_outcome(200, plc_status("No PLC program found")),
        Err(PlcError::StartRejected("No PLC program found".to_string()))
    );
}

#[test]
fn start_plc_no_runtime_response() {
    assert!(start_outcome(200, plc_status("No response from runtime")).is_err());
    assert_eq!(start_outcome(500, plc_status("Running")), Err(PlcError::HttpStatus(500)));
}

#[test]
fn get_status_running_and_stopped() {
    assert_eq!(status_outcome(200, plc_status("RUNNING")), Ok(PlcState::Running));
    assert_eq!(status_outcome(200, plc_status("STOPPED")), Ok(PlcState::Stopped));
}

#[test]
fn get_status_unexpected_is_kept() {
    assert_eq!(
        status_outcome(200, plc_status("SOME_NEW_STATE")),
        Ok(PlcState::Unexpected("SOME_NEW_STATE".to_string()))
    );
    assert_eq!(status_outcome(401, None), Err(PlcError::HttpStatus(401)));
}

#[test]
fn error_messages() {
    assert_eq!(PlcError::ClientSetup("builder error".to_string()).message(), "Failed to create PlcClient");
    assert_eq!(PlcError::HttpStatus(500).message(), "the runtime answered with HTTP status 500");
    assert_eq!(PlcError::HttpStatus(0).message(), "the runtime answered with HTTP status 0");
    assert_eq!(PlcError::CompilationTimedOut(120000).message(), "timed out after 120s");
    assert_eq!(PlcError::CompilationTimedOut(0).message(), "timed out after 0s");
    assert_eq!(PlcError::CompilationTimedOut(1500).message(), "timed out after 1500ms");
    assert_eq!(PlcError::StartRejected("x".to_string()).message(), "PLC did not start: x");
    assert_eq!(PlcError::CompilationFailed("log".to_string()).message(), "compilation failed: log");
    assert_eq!(PlcError::UploadRejected("bad".to_string()).message(), "upload rejected: bad");
}
