use prodzilla::http_probe::{
    build_request, classify_outcome, method_token_valid, prepare_probe, status_line, ProbeError,
    ProbeOutcome, PROBE_TIMEOUT_SECONDS,
};
use prodzilla::probe::{Probe, ProbeExpectation, ProbeInputParameters, UtcTimestamp};

fn probe_get_with_expected_status(status: u16, url: String, body: String) -> Probe {
    Probe {
        name: "Test probe".to_string(),
        url,
        http_method: "GET".to_string(),
        with: Some(ProbeInputParameters {
            body: Some(body),
            headers: None,
        }),
        expectations: Some(vec![ProbeExpectation {
            status: Some(status),
            body: None,
        }]),
    }
}

fn probe_without_expectations(url: String) -> Probe {
    Probe {
        name: "Reachability probe".to_string(),
        url,
        http_method: "GET".to_string(),
        with: None,
        expectations: None,
    }
}

fn timestamp() -> UtcTimestamp {
    UtcTimestamp {
        year: 2024,
        month: 3,
        day: 7,
        hour: 9,
        minute: 5,
        second: 30,
    }
}

#[test]
fn test_method_token_validity() {
    assert!(method_token_valid("GET"));
    assert!(method_token_valid("PATCH"));
    assert!(method_token_valid("wOw!!"));
    assert!(method_token_valid("custom-method.1~"));
    assert!(!method_token_valid(""));
    assert!(!method_token_valid("GE T"));
    assert!(!method_token_valid("B@D"));
    assert!(!method_token_valid("GET/"));
}

#[test]
fn test_build_request_plain_get() {
    let probe = probe_without_expectations("http://localhost/test".to_string());
    let descriptor = build_request(&probe).unwrap();
    assert_eq!(descriptor.method.as_str(), "GET");
    assert_eq!(descriptor.url.as_str(), "http://localhost/test");
    assert!(descriptor.body.is_none());
    assert!(descriptor.headers.is_empty());
}

#[test]
fn test_build_request_header_and_body_passthrough() {
    let probe = Probe {
        name: "Pass-through probe".to_string(),
        url: "http://localhost/test".to_string(),
        http_method: "POST".to_string(),
        with: Some(ProbeInputParameters {
            body: Some("payload".to_string()),
            headers: Some(vec![("X-Test".to_string(), "a".to_string())]),
        }),
        expectations: None,
    };
    let descriptor = build_request(&probe).unwrap();
    assert_eq!(descriptor.method.as_str(), "POST");
    assert_eq!(descriptor.body.as_deref(), Some("payload"));
    assert_eq!(
        descriptor.headers,
        vec![("X-Test".to_string(), "a".to_string())]
    );
}

#[test]
fn test_build_request_repeated_headers_kept_in_order() {
    let probe = Probe {
        name: "Header probe".to_string(),
        url: "http://localhost/test".to_string(),
        http_method: "GET".to_string(),
        with: Some(ProbeInputParameters {
            body: None,
            headers: Some(vec![
                ("X-Test".to_string(), "a".to_string()),
                ("X-Test".to_string(), "b".to_string()),
                ("X-Other".to_string(), "c".to_string()),
            ]),
        }),
        expectations: None,
    };
    let descriptor = build_request(&probe).unwrap();
    assert_eq!(
        descriptor.headers,
        vec![
            ("X-Test".to_string(), "a".to_string()),
            ("X-Test".to_string(), "b".to_string()),
            ("X-Other".to_string(), "c".to_string()),
        ]
    );
}

#[test]
fn test_build_request_rejects_invalid_method() {
    let mut probe = probe_without_expectations("http://localhost/test".to_string());
    probe.http_method = "GE T".to_string();
    assert_eq!(build_request(&probe), Err(ProbeError::MethodParse));
    probe.http_method = String::new();
    assert_eq!(build_request(&probe), Err(ProbeError::MethodParse));
}

#[test]
fn test_classify_no_expectations_success_on_any_response() {
    let probe = probe_without_expectations("http://localhost/test".to_string());
    let result = classify_outcome(
        &probe,
        &ProbeOutcome::ResponseWithoutExpectations,
        timestamp(),
    );
    assert!(result.success);
    assert!(result.response.is_none());
    assert_eq!(result.timestamp_started, timestamp());
}

#[test]
fn test_classify_passes_validator_verdict_through() {
    let probe =
        probe_get_with_expected_status(200, "http://localhost/test".to_string(), String::new());
    let passed = classify_outcome(&probe, &ProbeOutcome::ValidatorVerdict(true), timestamp());
    assert!(passed.success);
    let failed = classify_outcome(&probe, &ProbeOutcome::ValidatorVerdict(false), timestamp());
    assert!(!failed.success);
}

#[test]
fn test_classify_transport_error_fails_regardless_of_expectations() {
    let with_expectations =
        probe_get_with_expected_status(200, "http://localhost/test".to_string(), String::new());
    let result = classify_outcome(&with_expectations, &ProbeOutcome::TransportError, timestamp());
    assert!(!result.success);
    assert!(result.response.is_none());

    let without_expectations = probe_without_expectations("http://localhost/test".to_string());
    let result = classify_outcome(
        &without_expectations,
        &ProbeOutcome::TransportError,
        timestamp(),
    );
    assert!(!result.success);
    assert!(result.response.is_none());
}

#[test]
fn test_get_probe_expected_status_scenario() {
    // A GET probe expecting status 200; the dispatcher reports the validator's
    // verdict for the status the server actually returned.
    let probe =
        probe_get_with_expected_status(200, "http://localhost/test".to_string(), String::new());
    let (_descriptor, started) = prepare_probe(&probe).unwrap();

    let served_status: u16 = 200;
    let verdict = served_status == 200;
    let result = classify_outcome(&probe, &ProbeOutcome::ValidatorVerdict(verdict), started);
    assert!(result.success);

    let served_status: u16 = 404;
    let verdict = served_status == 200;
    let result = classify_outcome(&probe, &ProbeOutcome::ValidatorVerdict(verdict), started);
    assert!(!result.success);
}

#[test]
fn test_prepare_probe_valid_method() {
    let probe = probe_without_expectations("http://localhost/test".to_string());
    let (descriptor, started) = prepare_probe(&probe).unwrap();
    assert_eq!(descriptor.method.as_str(), "GET");
    assert!((1..=12).contains(&started.month));
    assert!((1..=31).contains(&started.day));
    assert!(started.hour <= 23);
    assert!(started.minute <= 59);
    assert!(started.second <= 59);
}

#[test]
fn test_prepare_probe_rejects_invalid_method() {
    let mut probe = probe_without_expectations("http://localhost/test".to_string());
    probe.http_method = "NOT A METHOD".to_string();
    assert_eq!(prepare_probe(&probe), Err(ProbeError::MethodParse));
}

#[test]
fn test_timestamp_started_no_later_than_later_reading() {
    let probe = probe_without_expectations("http://localhost/test".to_string());
    let (_descriptor, first) = prepare_probe(&probe).unwrap();
    let (_descriptor, second) = prepare_probe(&probe).unwrap();
    assert!(first.le(&second));
}

#[test]
fn test_status_lines() {
    assert_eq!(
        status_line("app", &ProbeOutcome::ValidatorVerdict(true)),
        "Successful response for app, as expected."
    );
    assert_eq!(
        status_line("app", &ProbeOutcome::ValidatorVerdict(false)),
        "Successful response for app, not as expected!"
    );
    assert_eq!(
        status_line("app", &ProbeOutcome::ResponseWithoutExpectations),
        "Successfully probed app, no expectation so success is true."
    );
    assert_eq!(
        status_line("app", &ProbeOutcome::TransportError),
        "Error whilst executing probe app."
    );
}

#[test]
fn test_timeout_bound_is_ten_seconds() {
    assert_eq!(PROBE_TIMEOUT_SECONDS, 10);
}
