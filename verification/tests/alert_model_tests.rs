use prodzilla::alerts::model::WebhookNotification;
use prodzilla::probe::UtcTimestamp;

fn timestamp() -> UtcTimestamp {
    UtcTimestamp {
        year: 2024,
        month: 3,
        day: 7,
        hour: 9,
        minute: 5,
        second: 30,
    }
}

#[test]
fn test_to_rfc3339() {
    assert_eq!(timestamp().to_rfc3339(), "2024-03-07T09:05:30Z");
    let edge = UtcTimestamp {
        year: 9,
        month: 12,
        day: 31,
        hour: 23,
        minute: 59,
        second: 59,
    };
    assert_eq!(edge.to_rfc3339(), "0009-12-31T23:59:59Z");
}

#[test]
fn test_serialize_without_trace_id_omits_the_key() {
    let notification = WebhookNotification {
        message: "Probe failed".to_string(),
        probe_name: "app".to_string(),
        failure_timestamp: timestamp(),
        trace_id: None,
    };
    let encoded = notification.to_json();
    assert_eq!(
        encoded,
        "{\"message\":\"Probe failed\",\"probe_name\":\"app\",\
         \"failure_timestamp\":\"2024-03-07T09:05:30Z\"}"
    );
    assert!(!encoded.contains("trace_id"));
}

#[test]
fn test_serialize_with_trace_id_includes_the_key() {
    let notification = WebhookNotification {
        message: "Probe failed".to_string(),
        probe_name: "app".to_string(),
        failure_timestamp: timestamp(),
        trace_id: Some("abc".to_string()),
    };
    let encoded = notification.to_json();
    assert_eq!(
        encoded,
        "{\"message\":\"Probe failed\",\"probe_name\":\"app\",\
         \"failure_timestamp\":\"2024-03-07T09:05:30Z\",\"trace_id\":\"abc\"}"
    );
    assert!(encoded.contains("\"trace_id\":\"abc\""));
}

#[test]
fn test_serialize_escapes_string_content() {
    let notification = WebhookNotification {
        message: "say \"hi\"\\\n\tplease \u{1}".to_string(),
        probe_name: "app".to_string(),
        failure_timestamp: timestamp(),
        trace_id: None,
    };
    let encoded = notification.to_json();
    assert_eq!(
        encoded,
        "{\"message\":\"say \\\"hi\\\"\\\\\\n\\tplease \\u0001\",\"probe_name\":\"app\",\
         \"failure_timestamp\":\"2024-03-07T09:05:30Z\"}"
    );
}

#[test]
fn test_serialize_empty_strings() {
    let notification = WebhookNotification {
        message: String::new(),
        probe_name: String::new(),
        failure_timestamp: timestamp(),
        trace_id: Some(String::new()),
    };
    assert_eq!(
        notification.to_json(),
        "{\"message\":\"\",\"probe_name\":\"\",\
         \"failure_timestamp\":\"2024-03-07T09:05:30Z\",\"trace_id\":\"\"}"
    );
}

#[test]
fn test_timestamp_order() {
    let base = timestamp();
    let mut later = base;
    later.second = 31;
    assert!(base.le(&later));
    assert!(!later.le(&base));
    assert!(base.le(&base));
    let mut next_year = base;
    next_year.year = 2025;
    next_year.month = 1;
    assert!(base.le(&next_year));
    assert!(!next_year.le(&base));
}
