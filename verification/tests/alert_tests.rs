use gcp_twist_bridge::alert::{
    describe, fallback, reply_to_json, GoogleLogAlert, GoogleUptimeAlert, GoogleWebhookPayload,
};

const LOG_ALERT: &str = r#"{"incident":{"documentation":{"content":"Check the logs.","mime_type":"text/markdown"},"policy_name":"Error burst","resource":{"labels":{"container_name":"api","project_id":"p-1"},"type":"k8s_container"},"url":"https://console.example/incidents/1"}}"#;

fn normalize(raw: &str) -> String {
    reply_to_json(raw.to_string()).expect("every payload becomes a message")
}

fn value(raw: &str) -> serde_json::Value {
    serde_json::from_str(raw).expect("the test's own JSON")
}

#[test]
fn log_alert_message_names_policy_service_and_url() {
    assert_eq!(
        normalize(LOG_ALERT),
        "🚨 Error burst on api [incident](https://console.example/incidents/1)\n\nCheck the logs."
    );
}

#[test]
fn log_alert_contains_policy_name_and_incident_url() {
    let message = normalize(LOG_ALERT);
    assert!(message.contains("Error burst"));
    assert!(message.contains("https://console.example/incidents/1"));
    assert!(message.starts_with("🚨 "));
}

#[test]
fn log_alert_without_container_name_is_unknown() {
    let raw = r#"{"incident":{"documentation":{"content":"D","mime_type":"m"},"policy_name":"P","resource":{"labels":{"zone":"z"},"type":"t"},"url":"U"}}"#;
    assert_eq!(normalize(raw), "🚨 P on unknown [incident](U)\n\nD");
}

#[test]
fn log_alert_with_labels_that_are_no_object_is_unknown() {
    for labels in ["null", "\"container_name\"", "[\"container_name\"]", "7", "true"] {
        let raw = format!(
            r#"{{"incident":{{"documentation":{{"content":"D","mime_type":"m"}},"policy_name":"P","resource":{{"labels":{},"type":"t"}},"url":"U"}}}}"#,
            labels
        );
        assert_eq!(normalize(&raw), "🚨 P on unknown [incident](U)\n\nD");
    }
}

#[test]
fn log_alert_with_container_name_that_is_no_string_is_unknown() {
    let raw = r#"{"incident":{"documentation":{"content":"D","mime_type":"m"},"policy_name":"P","resource":{"labels":{"container_name":5},"type":"t"},"url":"U"}}"#;
    assert_eq!(normalize(raw), "🚨 P on unknown [incident](U)\n\nD");
}

#[test]
fn log_alert_ignores_members_it_does_not_know() {
    let raw = r#"{"version":"1.2","incident":{"extra":[1,2],"documentation":{"content":"D","mime_type":"m","x":null},"policy_name":"P","resource":{"labels":{"container_name":"c"},"type":"t"},"url":"U"}}"#;
    assert_eq!(normalize(raw), "🚨 P on c [incident](U)\n\nD");
}

#[test]
fn uptime_alert_open_gets_the_alarm() {
    let raw = r#"{"incident":{"policy_name":"P","url":"U","summary":"S","state":"open"}}"#;
    assert_eq!(normalize(raw), "🚨 P [incident](U)\n\nS");
}

#[test]
fn uptime_alert_closed_gets_the_check() {
    let raw = r#"{"incident":{"policy_name":"P","url":"U","summary":"S","state":"closed"}}"#;
    assert_eq!(normalize(raw), "✅ P [incident](U)\n\nS");
}

#[test]
fn uptime_alert_any_other_state_gets_the_check() {
    for state in ["", "OPEN", "Open", "open ", "acknowledged", "🚨"] {
        let raw = format!(
            r#"{{"incident":{{"policy_name":"P","url":"U","summary":"S","state":"{}"}}}}"#,
            state
        );
        assert_eq!(normalize(&raw), "✅ P [incident](U)\n\nS");
    }
}

#[test]
fn log_shape_goes_first_when_both_fit() {
    let raw = r#"{"incident":{"documentation":{"content":"D","mime_type":"m"},"policy_name":"P","resource":{"labels":{},"type":"t"},"url":"U","summary":"S","state":"closed"}}"#;
    assert_eq!(normalize(raw), "🚨 P on unknown [incident](U)\n\nD");
}

#[test]
fn incomplete_log_alert_is_read_as_uptime_alert_where_it_fits() {
    let raw = r#"{"incident":{"documentation":{"content":"D"},"policy_name":"P","resource":{"labels":{},"type":"t"},"url":"U","summary":"S","state":"open"}}"#;
    assert_eq!(normalize(raw), "🚨 P [incident](U)\n\nS");
}

#[test]
fn malformed_payload_becomes_the_message() {
    assert_eq!(
        normalize("{not json"),
        "Failed to parse due to key must be a string at line 1 column 2:\n\n```\n{not json\n```"
    );
}

#[test]
fn malformed_payloads_are_kept_verbatim() {
    for raw in ["", "{not json", "[1,2", "\"open", "nul", "{\"incident\":}", "``` \n ```", "{} {}"] {
        let message = normalize(raw);
        assert!(message.starts_with("Failed to parse due to "));
        assert!(message.ends_with(&format!(":\n\n```\n{}\n```", raw)));
        assert!(message.contains(raw));
    }
}

#[test]
fn json_of_neither_shape_becomes_the_message() {
    let raw = r#"{"a":1}"#;
    assert_eq!(
        normalize(raw),
        "Failed to parse due to data did not match any variant of untagged enum GoogleWebhookPayload:\n\n```\n{\"a\":1}\n```"
    );
}

#[test]
fn json_of_the_wrong_kind_becomes_the_message() {
    for raw in [
        "null",
        "3",
        "\"incident\"",
        "[]",
        "{}",
        r#"{"incident":null}"#,
        r#"{"incident":"open"}"#,
        r#"{"incident":{"policy_name":"P","url":"U","summary":"S"}}"#,
        r#"{"incident":{"policy_name":"P","url":"U","summary":"S","state":1}}"#,
        r#"{"incident":{"policy_name":null,"url":"U","summary":"S","state":"open"}}"#,
        r#"{"incident":{"documentation":{"content":"D","mime_type":"m"},"policy_name":"P","resource":{"type":"t"},"url":"U"}}"#,
        r#"{"incident":{"documentation":"D","policy_name":"P","resource":{"labels":{},"type":"t"},"url":"U"}}"#,
    ] {
        assert_eq!(
            normalize(raw),
            format!(
                "Failed to parse due to data did not match any variant of untagged enum GoogleWebhookPayload:\n\n```\n{}\n```",
                raw
            )
        );
    }
}

#[test]
fn no_message_is_empty() {
    for raw in ["", " ", "{}", LOG_ALERT, r#"{"incident":{"policy_name":"","url":"","summary":"","state":""}}"#] {
        assert!(!normalize(raw).is_empty());
    }
}

#[test]
fn reply_to_json_always_answers() {
    assert!(reply_to_json(String::new()).is_some());
    assert!(reply_to_json(LOG_ALERT.to_string()).is_some());
}

#[test]
fn texts_are_taken_as_they_are_written_in_json() {
    let raw = r#"{"incident":{"policy_name":"a \"b\" \\ c","url":"U\u0041","summary":"line\nbreak \ud83d\ude80","state":"open"}}"#;
    assert_eq!(normalize(raw), "🚨 a \"b\" \\ c [incident](UA)\n\nline\nbreak 🚀");
}

#[test]
fn describe_reads_a_parsed_document() {
    let raw = r#"{"incident":{"policy_name":"P","url":"U","summary":"S","state":"open"}}"#;
    assert_eq!(describe(&value(raw), raw), "🚨 P [incident](U)\n\nS");
    assert_eq!(
        describe(&value("[1]"), "[1]"),
        "Failed to parse due to data did not match any variant of untagged enum GoogleWebhookPayload:\n\n```\n[1]\n```"
    );
}

#[test]
fn fallback_fences_the_payload() {
    assert_eq!(fallback("E", "raw"), "Failed to parse due to E:\n\n```\nraw\n```");
    assert_eq!(fallback("", ""), "Failed to parse due to :\n\n```\n\n```");
}

#[test]
fn log_alert_is_read_field_by_field() {
    let alert = GoogleLogAlert::from_value(&value(LOG_ALERT)).expect("a log alert");
    assert_eq!(
        alert,
        GoogleLogAlert {
            policy_name: "Error burst".to_string(),
            url: "https://console.example/incidents/1".to_string(),
            documentation: "Check the logs.".to_string(),
            mime_type: "text/markdown".to_string(),
            container_name: Some("api".to_string()),
            resource_type: "k8s_container".to_string(),
        }
    );
    assert_eq!(GoogleUptimeAlert::from_value(&value(LOG_ALERT)), None);
}

#[test]
fn uptime_alert_is_read_field_by_field() {
    let raw = r#"{"incident":{"policy_name":"P","url":"U","summary":"S","state":"closed"}}"#;
    let alert = GoogleUptimeAlert::from_value(&value(raw)).expect("an uptime alert");
    assert_eq!(
        alert,
        GoogleUptimeAlert {
            policy_name: "P".to_string(),
            url: "U".to_string(),
            summary: "S".to_string(),
            state: "closed".to_string(),
        }
    );
    assert_eq!(GoogleLogAlert::from_value(&value(raw)), None);
    assert_eq!(alert.message(), "✅ P [incident](U)\n\nS");
}

#[test]
fn payload_is_one_of_the_two_shapes() {
    let uptime = r#"{"incident":{"policy_name":"P","url":"U","summary":"S","state":"open"}}"#;
    assert!(matches!(
        GoogleWebhookPayload::from_value(&value(LOG_ALERT)),
        Some(GoogleWebhookPayload::GoogleLogAlert(_))
    ));
    assert!(matches!(
        GoogleWebhookPayload::from_value(&value(uptime)),
        Some(GoogleWebhookPayload::GoogleUptimeAlert(_))
    ));
    assert_eq!(GoogleWebhookPayload::from_value(&value("{}")), None);
    let payload = GoogleWebhookPayload::from_value(&value(uptime)).expect("an uptime alert");
    assert_eq!(payload.message(), "🚨 P [incident](U)\n\nS");
}
