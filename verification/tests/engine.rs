use cds_server::config::ConfigValue;
use cds_server::invoke::{
    build_success_response, decode_stdin, duration_micros, error_message, error_response,
    exit_status_code, invoke_response, prepare_invocation, response_status, InvokeError,
    InvokeOutcome, InvokeRequestBody,
};
use cds_server::server::Server;

fn sample_server() -> Server {
    let cfg = ConfigValue::List(vec![
        ConfigValue::List(vec![
            ConfigValue::Text("echo".to_string()),
            ConfigValue::Text("/bin/cat".to_string()),
        ]),
        ConfigValue::List(vec![
            ConfigValue::Text("hello".to_string()),
            ConfigValue::Text("/bin/hello".to_string()),
        ]),
    ]);
    Server::new(&cfg, 8080).expect("well-formed config")
}

#[test]
fn payload_round_trip() {
    let payload: Vec<u8> = vec![0, 1, 2, 104, 105, 254, 255, 0];
    let req = InvokeRequestBody {
        stdin: base64::encode(&payload),
    };
    let bytes = decode_stdin(&req).expect("valid base64 must decode");
    assert_eq!(bytes, payload);
    let resp = build_success_response(&bytes, &Vec::new(), 0, 0);
    let echoed = base64::decode(&resp.stdout).expect("response stdout is base64");
    assert_eq!(echoed, payload);
}

#[test]
fn empty_payload_round_trip() {
    let req = InvokeRequestBody {
        stdin: base64::encode(b""),
    };
    let bytes = decode_stdin(&req).expect("empty payload is valid");
    assert_eq!(bytes, Vec::<u8>::new());
    let resp = build_success_response(&bytes, &bytes, 0, 0);
    assert_eq!(base64::decode(&resp.stdout).unwrap(), Vec::<u8>::new());
}

#[test]
fn success_response_encodes_known_value() {
    let out = b"hello".to_vec();
    let err = b"oops".to_vec();
    let resp = build_success_response(&out, &err, 3, 42);
    assert_eq!(resp.stdout, "aGVsbG8=");
    assert_eq!(resp.stderr, "b29wcw==");
    assert_eq!(resp.exit_status, 3);
    assert_eq!(resp.duration, 42);
    assert!(resp.error.is_none());
    assert_eq!(response_status(&resp), 200);
}

#[test]
fn unknown_program_is_refused() {
    let server = sample_server();
    let req = InvokeRequestBody {
        stdin: base64::encode(b"payload"),
    };
    let err = prepare_invocation(&server, "nope", Ok(req)).unwrap_err();
    assert!(matches!(err, InvokeError::UnknownProgram(_)));
    let resp = error_response(&err);
    assert_eq!(response_status(&resp), 400);
    assert_eq!(resp.stdout, "");
    assert_eq!(resp.stderr, "");
    assert_eq!(resp.exit_status, 0);
    assert_eq!(resp.duration, 0);
    assert_eq!(
        resp.error.as_deref(),
        Some("Unable to resolve location of program nope! No such entry in server configuration")
    );
}

#[test]
fn known_program_resolves_and_decodes() {
    let server = sample_server();
    let req = InvokeRequestBody {
        stdin: base64::encode(b"some input"),
    };
    let (location, bytes) = prepare_invocation(&server, "echo", Ok(req)).expect("registered");
    assert_eq!(location, "/bin/cat");
    assert_eq!(bytes, b"some input".to_vec());
}

#[test]
fn invalid_json_body_is_refused() {
    let server = sample_server();
    let err =
        prepare_invocation(&server, "echo", Err("expected value at line 1".to_string()))
            .unwrap_err();
    assert!(matches!(err, InvokeError::JsonDecode(_)));
    let msg = error_message(&err);
    assert_eq!(
        msg,
        "Unable to decode request's JSON body! Error: expected value at line 1"
    );
    let resp = error_response(&err);
    assert_eq!(response_status(&resp), 400);
    assert!(resp.error.unwrap().contains("decode"));
}

#[test]
fn invalid_base64_is_refused() {
    let req = InvokeRequestBody {
        stdin: "!this is not base64!".to_string(),
    };
    let err = decode_stdin(&req).unwrap_err();
    assert!(matches!(err, InvokeError::Base64Decode(_)));
    let msg = error_message(&err);
    assert!(msg.starts_with("Unable to decode base64 stdin content. Error: "));
    let resp = error_response(&err);
    assert_eq!(response_status(&resp), 400);
    assert_eq!(resp.stdout, "");
    assert_eq!(resp.exit_status, 0);
}

#[test]
fn base64_refusal_reaches_prepare() {
    let server = sample_server();
    let req = InvokeRequestBody {
        stdin: "????".to_string(),
    };
    let err = prepare_invocation(&server, "echo", Ok(req)).unwrap_err();
    assert!(matches!(err, InvokeError::Base64Decode(_)));
}

#[test]
fn exit_status_reports_real_codes_and_signal_sentinel() {
    assert_eq!(exit_status_code(Some(0)), 0);
    assert_eq!(exit_status_code(Some(7)), 7);
    assert_eq!(exit_status_code(Some(255)), 255);
    assert_eq!(exit_status_code(None), -1);
}

#[test]
fn duration_is_reported_in_microseconds() {
    assert_eq!(duration_micros(0, 0), 0);
    assert_eq!(duration_micros(0, 999), 0);
    assert_eq!(duration_micros(1, 500_000), 1_000_500);
    assert_eq!(duration_micros(2, 0), 2_000_000);
    // a run of at least 250 milliseconds reports at least 250_000 microseconds
    assert!(duration_micros(0, 250_000_000) >= 250_000);
}

#[test]
fn completed_outcome_builds_success_envelope() {
    let outcome = InvokeOutcome::Completed {
        exit_code: Some(5),
        duration_secs: 1,
        duration_subsec_nanos: 2_000,
        stdout: b"out".to_vec(),
        stderr: b"err".to_vec(),
    };
    let resp = invoke_response(outcome);
    assert_eq!(resp.exit_status, 5);
    assert_eq!(resp.duration, 1_000_002);
    assert_eq!(base64::decode(&resp.stdout).unwrap(), b"out".to_vec());
    assert_eq!(base64::decode(&resp.stderr).unwrap(), b"err".to_vec());
    assert!(resp.error.is_none());
    assert_eq!(response_status(&resp), 200);
}

#[test]
fn signalled_outcome_reports_sentinel() {
    let outcome = InvokeOutcome::Completed {
        exit_code: None,
        duration_secs: 0,
        duration_subsec_nanos: 0,
        stdout: Vec::new(),
        stderr: Vec::new(),
    };
    let resp = invoke_response(outcome);
    assert_eq!(resp.exit_status, -1);
    assert!(resp.error.is_none());
}

#[test]
fn failed_outcome_builds_error_envelope() {
    let outcome = InvokeOutcome::Failed(InvokeError::StdinPipeUnavailable);
    let resp = invoke_response(outcome);
    assert_eq!(resp.error.as_deref(), Some("Unable to open stdin of invoked program"));
    assert_eq!(resp.stdout, "");
    assert_eq!(resp.stderr, "");
    assert_eq!(resp.exit_status, 0);
    assert_eq!(resp.duration, 0);
    assert_eq!(response_status(&resp), 400);
}

#[test]
fn each_failure_message_is_exact() {
    assert_eq!(
        error_message(&InvokeError::BodyRead("broken pipe".to_string())),
        "Unable to read request's body! Error: broken pipe"
    );
    assert_eq!(
        error_message(&InvokeError::Spawn {
            program: "p".to_string(),
            location: "/bin/p".to_string(),
            cause: "No such file".to_string(),
        }),
        "Unable to start program 'p' (location in container: /bin/p). Error: No such file"
    );
    assert_eq!(
        error_message(&InvokeError::StdinWrite("broken pipe".to_string())),
        "Unable to write to stdin of invoked program. Error: broken pipe"
    );
    assert_eq!(
        error_message(&InvokeError::StdinFlush("broken pipe".to_string())),
        "Unable to flush stdin of invoked program. Error: broken pipe"
    );
    assert_eq!(
        error_message(&InvokeError::StdoutUnavailable),
        "Unable to obtain stdout of invoked program"
    );
    assert_eq!(
        error_message(&InvokeError::ProcessWait("interrupted".to_string())),
        "An error occured while waiting for child program to finish. Error: interrupted"
    );
}
