//! Alert payloads of the monitoring provider and the chat message that each
//! one becomes.

use crate::fields::{object_field, optional_text, text_field};
use crate::json::{
    doc_of, error_message, map_get, member, object_member, parse_value, parsed, text_member,
    value_as_object, JsonDoc,
};
use crate::text::{lemma_occurs_between, occurs_in, starts_with};
use vstd::prelude::*;
use vstd::string::StringExecFns;

verus! {

/// An alert of an uptime check.
#[derive(Debug, PartialEq, Eq)]
pub struct GoogleUptimeAlert {
    pub policy_name: String,
    pub url: String,
    pub summary: String,
    pub state: String,
}

/// An uptime alert as a mathematical value.
pub struct UptimeAlertView {
    pub policy_name: Seq<char>,
    pub url: Seq<char>,
    pub summary: Seq<char>,
    pub state: Seq<char>,
}

impl View for GoogleUptimeAlert {
    type V = UptimeAlertView;

    open spec fn view(&self) -> UptimeAlertView {
        UptimeAlertView {
            policy_name: self.policy_name@,
            url: self.url@,
            summary: self.summary@,
            state: self.state@,
        }
    }
}

/// The glyph that opens the message of an alert that is firing.
pub open spec fn alarm_glyph() -> Seq<char> {
    "🚨"@
}

/// The glyph that opens the message of an uptime alert in any state but open.
pub open spec fn resolved_glyph() -> Seq<char> {
    "✅"@
}

/// The glyph of an uptime alert: the alarm exactly when its state is `open`.
pub open spec fn uptime_glyph(state: Seq<char>) -> Seq<char> {
    if state == "open"@ {
        alarm_glyph()
    } else {
        resolved_glyph()
    }
}

/// The message of an uptime alert.
pub open spec fn uptime_message(alert: UptimeAlertView) -> Seq<char> {
    uptime_glyph(alert.state) + " "@ + alert.policy_name + " [incident]("@ + alert.url + ")\n\n"@
        + alert.summary
}

impl GoogleUptimeAlert {
    /// The chat message for this alert.
    pub fn message(&self) -> (message: String)
        ensures
            message@ == uptime_message(self@),
    {
        let open = "open".to_owned();
        let mut message = if self.state == open {
            "🚨".to_owned()
        } else {
            "✅".to_owned()
        };
        message.append(" ");
        message.append(self.policy_name.as_str());
        message.append(" [incident](");
        message.append(self.url.as_str());
        message.append(")\n\n");
        message.append(self.summary.as_str());
        message
    }
}


/// An alert that a log-based policy raised.
#[derive(Debug, PartialEq, Eq)]
pub struct GoogleLogAlert {
    pub policy_name: String,
    pub url: String,
    /// The content of the incident's documentation.
    pub documentation: String,
    pub mime_type: String,
    /// The label `container_name` of the resource, where the labels are an
    /// object that holds a string under that key.
    pub container_name: Option<String>,
    pub resource_type: String,
}

/// A log alert as a mathematical value.
pub struct LogAlertView {
    pub policy_name: Seq<char>,
    pub url: Seq<char>,
    pub documentation: Seq<char>,
    pub mime_type: Seq<char>,
    pub container_name: Option<Seq<char>>,
    pub resource_type: Seq<char>,
}

impl View for GoogleLogAlert {
    type V = LogAlertView;

    open spec fn view(&self) -> LogAlertView {
        LogAlertView {
            policy_name: self.policy_name@,
            url: self.url@,
            documentation: self.documentation@,
            mime_type: self.mime_type@,
            container_name: optional_text(self.container_name),
            resource_type: self.resource_type@,
        }
    }
}

/// The name of the service that a log alert is about: its container name,
/// `unknown` where it has none.
pub open spec fn service_name(container_name: Option<Seq<char>>) -> Seq<char> {
    match container_name {
        Some(name) => name,
        None => "unknown"@,
    }
}

/// The message of a log alert.
pub open spec fn log_message(alert: LogAlertView) -> Seq<char> {
    alarm_glyph() + " "@ + alert.policy_name + " on "@ + service_name(alert.container_name)
        + " [incident]("@ + alert.url + ")\n\n"@ + alert.documentation
}

impl GoogleLogAlert {
    /// The chat message for this alert.
    pub fn message(&self) -> (message: String)
        ensures
            message@ == log_message(self@),
    {
        let mut message = "🚨".to_owned();
        message.append(" ");
        message.append(self.policy_name.as_str());
        message.append(" on ");
        match &self.container_name {
            Some(name) => message.append(name.as_str()),
            None => message.append("unknown"),
        }
        message.append(" [incident](");
        message.append(self.url.as_str());
        message.append(")\n\n");
        message.append(self.documentation.as_str());
        message
    }
}

/// An alert payload in one of the two shapes that the bridge knows.
#[derive(Debug, PartialEq, Eq)]
pub enum GoogleWebhookPayload {
    GoogleLogAlert(GoogleLogAlert),
    GoogleUptimeAlert(GoogleUptimeAlert),
}

/// A payload as a mathematical value.
pub enum PayloadView {
    Log(LogAlertView),
    Uptime(UptimeAlertView),
}

impl View for GoogleWebhookPayload {
    type V = PayloadView;

    open spec fn view(&self) -> PayloadView {
        match self {
            GoogleWebhookPayload::GoogleLogAlert(alert) => PayloadView::Log(alert@),
            GoogleWebhookPayload::GoogleUptimeAlert(alert) => PayloadView::Uptime(alert@),
        }
    }
}

/// The container name that a resource's labels give: the string under
/// `container_name`, where the labels are an object that holds one there.
pub open spec fn container_name_of(labels: JsonDoc) -> Option<Seq<char>> {
    match labels {
        JsonDoc::Object(members) => text_member(members, "container_name"@),
        _ => None,
    }
}

/// The log alert that a document holds, if it has that shape: an object whose
/// `incident` is an object with texts `policy_name` and `url`, an object
/// `documentation` with texts `content` and `mime_type`, and an object
/// `resource` with a text `type` and labels of any kind. Other members are
/// passed over.
pub open spec fn log_alert_of(doc: JsonDoc) -> Option<LogAlertView> {
    match doc {
        JsonDoc::Object(top) => match object_member(top, "incident"@) {
            Some(incident) => match (
                object_member(incident, "documentation"@),
                text_member(incident, "policy_name"@),
                object_member(incident, "resource"@),
                text_member(incident, "url"@),
            ) {
                (Some(documentation), Some(policy_name), Some(resource), Some(url)) => match (
                    text_member(documentation, "content"@),
                    text_member(documentation, "mime_type"@),
                    member(resource, "labels"@),
                    text_member(resource, "type"@),
                ) {
                    (Some(content), Some(mime_type), Some(labels), Some(resource_type)) => Some(
                        LogAlertView {
                            policy_name,
                            url,
                            documentation: content,
                            mime_type,
                            container_name: container_name_of(labels),
                            resource_type,
                        },
                    ),
                    _ => None,
                },
                _ => None,
            },
            None => None,
        },
        _ => None,
    }
}

/// The uptime alert that a document holds, if it has that shape: an object
/// whose `incident` is an object with texts `policy_name`, `url`, `summary`
/// and `state`. Other members are passed over.
pub open spec fn uptime_alert_of(doc: JsonDoc) -> Option<UptimeAlertView> {
    match doc {
        JsonDoc::Object(top) => match object_member(top, "incident"@) {
            Some(incident) => match (
                text_member(incident, "policy_name"@),
                text_member(incident, "url"@),
                text_member(incident, "summary"@),
                text_member(incident, "state"@),
            ) {
                (Some(policy_name), Some(url), Some(summary), Some(state)) => Some(
                    UptimeAlertView { policy_name, url, summary, state },
                ),
                _ => None,
            },
            None => None,
        },
        _ => None,
    }
}

/// The payload that a document holds: the log alert where it has that shape,
/// else the uptime alert where it has that one.
pub open spec fn payload_of(doc: JsonDoc) -> Option<PayloadView> {
    match log_alert_of(doc) {
        Some(alert) => Some(PayloadView::Log(alert)),
        None => match uptime_alert_of(doc) {
            Some(alert) => Some(PayloadView::Uptime(alert)),
            None => None,
        },
    }
}

/// The container name among a resource's labels.
fn container_name(labels: &serde_json::Value) -> (name: Option<String>)
    ensures
        optional_text(name) == container_name_of(doc_of(*labels)),
{
    match value_as_object(labels) {
        Some(members) => text_field(members, "container_name"),
        None => None,
    }
}

impl GoogleLogAlert {
    /// Reads a log alert out of a document that has its shape.
    pub fn from_value(value: &serde_json::Value) -> (alert: Option<GoogleLogAlert>)
        ensures
            match log_alert_of(doc_of(*value)) {
                Some(view) => alert matches Some(a) && a@ == view,
                None => alert is None,
            },
    {
        let top = match value_as_object(value) {
            Some(top) => top,
            None => return None,
        };
        let incident = match object_field(top, "incident") {
            Some(incident) => incident,
            None => return None,
        };
        let documentation = match object_field(incident, "documentation") {
            Some(documentation) => documentation,
            None => return None,
        };
        let policy_name = match text_field(incident, "policy_name") {
            Some(policy_name) => policy_name,
            None => return None,
        };
        let resource = match object_field(incident, "resource") {
            Some(resource) => resource,
            None => return None,
        };
        let url = match text_field(incident, "url") {
            Some(url) => url,
            None => return None,
        };
        let content = match text_field(documentation, "content") {
            Some(content) => content,
            None => return None,
        };
        let mime_type = match text_field(documentation, "mime_type") {
            Some(mime_type) => mime_type,
            None => return None,
        };
        let labels = match map_get(resource, "labels") {
            Some(labels) => labels,
            None => return None,
        };
        let resource_type = match text_field(resource, "type") {
            Some(resource_type) => resource_type,
            None => return None,
        };
        Some(
            GoogleLogAlert {
                policy_name,
                url,
                documentation: content,
                mime_type,
                container_name: container_name(labels),
                resource_type,
            },
        )
    }
}

impl GoogleUptimeAlert {
    /// Reads an uptime alert out of a document that has its shape.
    pub fn from_value(value: &serde_json::Value) -> (alert: Option<GoogleUptimeAlert>)
        ensures
            match uptime_alert_of(doc_of(*value)) {
                Some(view) => alert matches Some(a) && a@ == view,
                None => alert is None,
            },
    {
        let top = match value_as_object(value) {
            Some(top) => top,
            None => return None,
        };
        let incident = match object_field(top, "incident") {
            Some(incident) => incident,
            None => return None,
        };
        let policy_name = match text_field(incident, "policy_name") {
            Some(policy_name) => policy_name,
            None => return None,
        };
        let url = match text_field(incident, "url") {
            Some(url) => url,
            None => return None,
        };
        let summary = match text_field(incident, "summary") {
            Some(summary) => summary,
            None => return None,
        };
        let state = match text_field(incident, "state") {
            Some(state) => state,
            None => return None,
        };
        Some(GoogleUptimeAlert { policy_name, url, summary, state })
    }
}

impl GoogleWebhookPayload {
    /// Reads a payload out of a document: the two shapes are tried in a fixed
    /// order, the log alert first.
    pub fn from_value(value: &serde_json::Value) -> (payload: Option<GoogleWebhookPayload>)
        ensures
            match payload_of(doc_of(*value)) {
                Some(view) => payload matches Some(p) && p@ == view,
                None => payload is None,
            },
    {
        match GoogleLogAlert::from_value(value) {
            Some(alert) => Some(GoogleWebhookPayload::GoogleLogAlert(alert)),
            None => match GoogleUptimeAlert::from_value(value) {
                Some(alert) => Some(GoogleWebhookPayload::GoogleUptimeAlert(alert)),
                None => None,
            },
        }
    }

    /// The chat message for this payload.
    pub fn message(&self) -> (message: String)
        ensures
            message@ == payload_message(self@),
    {
        match self {
            GoogleWebhookPayload::GoogleLogAlert(alert) => alert.message(),
            GoogleWebhookPayload::GoogleUptimeAlert(alert) => alert.message(),
        }
    }
}

/// The message of a payload.
pub open spec fn payload_message(payload: PayloadView) -> Seq<char> {
    match payload {
        PayloadView::Log(alert) => log_message(alert),
        PayloadView::Uptime(alert) => uptime_message(alert),
    }
}

/// What is reported as the error of a document that has neither shape.
pub open spec fn no_shape_text() -> Seq<char> {
    "data did not match any variant of untagged enum GoogleWebhookPayload"@
}

/// The message that stands in for a payload that could not be read: it names
/// the error and carries the payload as it came, inside a fenced block.
pub open spec fn fallback_message(error: Seq<char>, raw: Seq<char>) -> Seq<char> {
    "Failed to parse due to "@ + error + ":\n\n```\n"@ + raw + "\n```"@
}

/// The message for a raw payload, given what parsing it as JSON gave.
pub open spec fn normalized(outcome: Result<JsonDoc, Seq<char>>, raw: Seq<char>) -> Seq<char> {
    match outcome {
        Ok(doc) => match payload_of(doc) {
            Some(payload) => payload_message(payload),
            None => fallback_message(no_shape_text(), raw),
        },
        Err(error) => fallback_message(error, raw),
    }
}

/// The diagnostic message for a payload that could not be read.
pub fn fallback(error: &str, raw: &str) -> (message: String)
    ensures
        message@ == fallback_message(error@, raw@),
{
    let mut message = "Failed to parse due to ".to_owned();
    message.append(error);
    message.append(":\n\n```\n");
    message.append(raw);
    message.append("\n```");
    message
}

/// The message for a payload that parsed as JSON: that of the alert it holds,
/// or the diagnostic message where it holds none.
pub fn describe(value: &serde_json::Value, raw: &str) -> (message: String)
    ensures
        message@ == normalized(Ok(doc_of(*value)), raw@),
{
    match GoogleWebhookPayload::from_value(value) {
        Some(payload) => payload.message(),
        None => fallback("data did not match any variant of untagged enum GoogleWebhookPayload", raw),
    }
}

/// Turns a raw alert payload into the message to deliver. It never fails: a
/// payload that cannot be read becomes a diagnostic message.
pub fn reply_to_json(json: String) -> (reply: Option<String>)
    ensures
        reply matches Some(message) && message@ == normalized(parsed(json@), json@),
        reply matches Some(message) && message@.len() > 0,
{
    proof {
        lemma_message_is_not_empty(parsed(json@), json@);
    }
    match parse_value(json.as_str()) {
        Ok(value) => Some(describe(&value, json.as_str())),
        Err(error) => {
            let text = error_message(&error);
            Some(fallback(text.as_str(), json.as_str()))
        },
    }
}


/// A payload in the log-alert shape becomes the log alert's message, which
/// holds the policy name and the incident URL as they came; where the labels
/// give no container name, the service is called `unknown`.
pub proof fn lemma_log_alert_is_named(doc: JsonDoc, raw: Seq<char>)
    requires
        log_alert_of(doc) is Some,
    ensures
        ({
            let alert = log_alert_of(doc).unwrap();
            let message = normalized(Ok(doc), raw);
            &&& message == log_message(alert)
            &&& occurs_in(alert.policy_name, message)
            &&& occurs_in(alert.url, message)
            &&& alert.container_name is None ==> message == alarm_glyph() + " "@
                + alert.policy_name + " on "@ + "unknown"@ + " [incident]("@ + alert.url
                + ")\n\n"@ + alert.documentation
        }),
{
    let alert = log_alert_of(doc).unwrap();
    let message = normalized(Ok(doc), raw);
    let head = alarm_glyph() + " "@;
    let middle = " on "@ + service_name(alert.container_name) + " [incident]("@;
    let tail = ")\n\n"@ + alert.documentation;
    assert(message =~= head + alert.policy_name + (middle + alert.url + tail));
    lemma_occurs_between(head, alert.policy_name, middle + alert.url + tail);
    assert(message =~= (head + alert.policy_name + middle) + alert.url + tail);
    lemma_occurs_between(head + alert.policy_name + middle, alert.url, tail);
}

/// A payload in the uptime shape (and not in the log-alert shape, which goes
/// first) becomes a message that opens with the alarm glyph if and only if the
/// state is `open`, and with the resolved glyph for every other state.
pub proof fn lemma_uptime_glyph_follows_state(doc: JsonDoc, raw: Seq<char>)
    requires
        log_alert_of(doc) is None,
        uptime_alert_of(doc) is Some,
    ensures
        ({
            let alert = uptime_alert_of(doc).unwrap();
            let message = normalized(Ok(doc), raw);
            &&& message == uptime_message(alert)
            &&& starts_with(message, alarm_glyph()) <==> alert.state == "open"@
            &&& alert.state != "open"@ ==> starts_with(message, resolved_glyph())
        }),
{
    let alert = uptime_alert_of(doc).unwrap();
    let message = normalized(Ok(doc), raw);
    let glyph = uptime_glyph(alert.state);
    reveal_strlit("🚨");
    reveal_strlit("✅");
    let rest = " "@ + alert.policy_name + " [incident]("@ + alert.url + ")\n\n"@ + alert.summary;
    assert(message =~= glyph + rest);
    assert(message.subrange(0, 1) =~= glyph);
    assert(alarm_glyph()[0] != resolved_glyph()[0]);
    if alert.state != "open"@ {
        assert(message.subrange(0, 1)[0] == resolved_glyph()[0]);
    }
}

/// Whatever could not be read, as JSON or as an alert, comes back verbatim
/// inside the message.
pub proof fn lemma_unreadable_payload_is_kept(outcome: Result<JsonDoc, Seq<char>>, raw: Seq<char>)
    requires
        outcome matches Ok(doc) ==> payload_of(doc) is None,
    ensures
        occurs_in(raw, normalized(outcome, raw)),
        normalized(outcome, raw) == fallback_message(
            match outcome {
                Ok(_) => no_shape_text(),
                Err(error) => error,
            },
            raw,
        ),
{
    let error = match outcome {
        Ok(_) => no_shape_text(),
        Err(error) => error,
    };
    lemma_occurs_between("Failed to parse due to "@ + error + ":\n\n```\n"@, raw, "\n```"@);
}

/// No payload becomes an empty message.
pub proof fn lemma_message_is_not_empty(outcome: Result<JsonDoc, Seq<char>>, raw: Seq<char>)
    ensures
        normalized(outcome, raw).len() > 0,
{
    reveal_strlit("🚨");
    reveal_strlit("✅");
    reveal_strlit("\n```");
}

} // verus!
