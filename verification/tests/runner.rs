use flute_webhooks_mcp::config::{Config, Profile};
use flute_webhooks_mcp::error::{Envelope, FluteError};
use flute_webhooks_mcp::runner::{CliOutput, MockRunner, ProcessOutcome, ProcessRunner};
use serde_json::Value;

fn runner_for(binary: &str, timeout_ms: u128) -> ProcessRunner {
    ProcessRunner { binary: binary.to_string(), timeout_ms, debug: false }
}

fn exited(success: bool, code: i32, stdout: &str, envelope: Option<Envelope>) -> ProcessOutcome {
    ProcessOutcome::Exited {
        success,
        code: Some(code),
        stdout: stdout.to_string(),
        stderr: String::new(),
        envelope,
    }
}

#[test]
fn mock_records_calls_and_replays_responses() {
    let data: Value = serde_json::from_str(r#"{"data": []}"#).unwrap();
    let mut mock = MockRunner::new(vec![Ok(CliOutput::Json(data.clone()))]);
    let out = mock.run(&["a".into(), "b".into()]).unwrap();
    assert!(matches!(out, CliOutput::Json(v) if v == data));
    assert_eq!(mock.calls(), vec![vec!["a".to_string(), "b".to_string()]]);
}

#[test]
fn mock_replays_in_order() {
    let mut mock = MockRunner::new(vec![
        Ok(CliOutput::Empty),
        Err(FluteError::Timeout { secs: 1 }),
    ]);
    assert!(matches!(mock.run(&["x".into()]), Ok(CliOutput::Empty)));
    assert!(matches!(mock.run(&[]), Err(FluteError::Timeout { secs: 1 })));
    assert_eq!(mock.calls(), vec![vec!["x".to_string()], vec![]]);
    assert!(mock.responses.is_empty());
}

#[test]
fn success_returns_parsed_json() {
    let runner = runner_for("/bin/flute-webhooks", 5_000);
    let out = runner.finish(exited(true, 0, r#"{"data":[{"id":"e1"}]}"#, None)).unwrap();
    let want: Value = serde_json::from_str(r#"{"data":[{"id":"e1"}]}"#).unwrap();
    assert!(matches!(out, CliOutput::Json(v) if v == want));
}

#[test]
fn empty_stdout_on_success_returns_null() {
    let runner = runner_for("/bin/flute-webhooks", 5_000);
    assert!(matches!(runner.finish(exited(true, 0, "", None)), Ok(CliOutput::Empty)));
    assert!(matches!(runner.finish(exited(true, 0, " \n", None)), Ok(CliOutput::Empty)));
}

#[test]
fn api_envelope_failure_is_mapped() {
    let runner = runner_for("/bin/flute-webhooks", 5_000);
    let stdout = r#"{"kind":"api","message":"bad","status":422,"correlation_id":"x-1"}"#;
    let env = Envelope {
        kind: "api".into(),
        message: "bad".into(),
        status: Some(422),
        correlation_id: Some("x-1".into()),
    };
    match runner.finish(exited(false, 1, stdout, Some(env))).unwrap_err() {
        FluteError::Api { status, message, correlation_id } => {
            assert_eq!(status, 422);
            assert_eq!(message, "bad");
            assert_eq!(correlation_id.as_deref(), Some("x-1"));
        }
        other => panic!("expected Api, got {other:?}"),
    }
}

#[test]
fn auth_envelope_failure_is_mapped() {
    let runner = runner_for("/bin/flute-webhooks", 5_000);
    let stdout = r#"{"kind":"auth","message":"no credentials for [uat]"}"#;
    let env = Envelope {
        kind: "auth".into(),
        message: "no credentials for [uat]".into(),
        status: None,
        correlation_id: None,
    };
    let err = runner.finish(exited(false, 1, stdout, Some(env))).unwrap_err();
    assert!(matches!(err, FluteError::Auth { message } if message.contains("no credentials")));
}

#[test]
fn unparseable_failure_becomes_bad_output() {
    let runner = runner_for("/bin/flute-webhooks", 5_000);
    let err = runner.finish(exited(false, 7, "totally not json\n", None)).unwrap_err();
    match err {
        FluteError::BadOutput { exit_code, stdout, .. } => {
            assert_eq!(exit_code, 7);
            assert!(stdout.contains("totally not json"));
        }
        other => panic!("expected BadOutput, got {other:?}"),
    }
}

#[test]
fn missing_binary_produces_spawn_error() {
    let runner = runner_for("/no/such/binary/anywhere", 1_000);
    let err = runner
        .finish(ProcessOutcome::SpawnFailed { reason: "No such file or directory (os error 2)".into() })
        .unwrap_err();
    assert!(matches!(
        err,
        FluteError::Spawn(m) if m == "/no/such/binary/anywhere: No such file or directory (os error 2)"
    ));
}

#[test]
fn timeout_kills_the_child() {
    let runner = runner_for("/bin/flute-webhooks", 100);
    assert!(matches!(runner.finish(ProcessOutcome::TimedOut), Err(FluteError::Timeout { secs: 0 })));
    let runner = runner_for("/bin/flute-webhooks", 30_000);
    assert!(matches!(runner.finish(ProcessOutcome::TimedOut), Err(FluteError::Timeout { secs: 30 })));
}

#[test]
fn wait_failure_is_a_spawn_error() {
    let runner = runner_for("/bin/flute-webhooks", 100);
    assert!(matches!(
        runner.finish(ProcessOutcome::WaitFailed { reason: "interrupted".into() }),
        Err(FluteError::Spawn(m)) if m == "interrupted"
    ));
}

#[test]
fn non_json_success_is_a_decode_error() {
    let runner = runner_for("/bin/flute-webhooks", 100);
    match runner.finish(exited(true, 0, "eyJhbGciOi.jwt", None)) {
        Err(FluteError::Decode { message }) => {
            let detail = serde_json::from_str::<Value>("eyJhbGciOi.jwt").unwrap_err().to_string();
            assert_eq!(message, format!("could not parse stdout as JSON: {detail}"));
        }
        other => panic!("expected Decode, got {other:?}"),
    }
}

#[test]
fn signal_exit_uses_minus_one() {
    let runner = runner_for("/bin/flute-webhooks", 100);
    let outcome = ProcessOutcome::Exited {
        success: false,
        code: None,
        stdout: String::new(),
        stderr: "killed".into(),
        envelope: None,
    };
    assert!(matches!(
        runner.finish(outcome),
        Err(FluteError::BadOutput { exit_code: -1, stderr, .. }) if stderr == "killed"
    ));
}

#[test]
fn stderr_is_logged_only_in_debug_mode() {
    let quiet = runner_for("/bin/flute-webhooks", 100);
    let loud = ProcessRunner { debug: true, ..quiet.clone() };
    assert!(!quiet.logs_stderr("warning"));
    assert!(loud.logs_stderr("warning"));
    assert!(!loud.logs_stderr(""));
}

#[test]
fn stdout_result_maps_both_ways() {
    let v: Value = serde_json::from_str("[1,2]").unwrap();
    assert!(matches!(ProcessRunner::stdout_result(Ok(v.clone())), Ok(CliOutput::Json(w)) if w == v));
    assert!(matches!(
        ProcessRunner::stdout_result(Err("expected value at line 1 column 1".into())),
        Err(FluteError::Decode { message }) if message == "could not parse stdout as JSON: expected value at line 1 column 1"
    ));
}

#[test]
fn from_config_converts_seconds() {
    let cfg = Config { profile: Profile::Sandbox, binary: "/b".into(), timeout_secs: 5, debug: true };
    let r = ProcessRunner::from_config(&cfg);
    assert_eq!(r.binary, "/b");
    assert_eq!(r.timeout_ms, 5_000);
    assert!(r.debug);
    let huge = Config { timeout_secs: u64::MAX, ..cfg };
    let r = ProcessRunner::from_config(&huge);
    assert_eq!(r.timeout_ms, u64::MAX as u128 * 1000);
    assert_eq!(r.timeout_secs(), u64::MAX);
    assert!(matches!(r.finish(ProcessOutcome::TimedOut), Err(FluteError::Timeout { secs }) if secs == u64::MAX));
    assert_eq!(runner_for("/b", 1_500).timeout_parts(), (1, 500_000_000));
}
