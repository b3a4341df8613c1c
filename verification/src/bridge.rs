//! The coordinator: what each inbound event does to the registry and what is
//! to be sent, written and answered for it. It performs none of that itself:
//! the caller writes the file and makes the outbound calls.

use crate::alert::{normalized, reply_to_json};
use crate::json::{
    doc_of, json_text, map_insert, map_new, member, members_of, object_value, parsed, text_value,
    value_text, JsonDoc,
};
use crate::registry::{
    found, persisted, registered, unregistered, FileStore, StoreView, TwistOnConfigure,
};
use vstd::prelude::*;
use vstd::string::StringExecFns;

verus! {

/// The JSON object that carries a message: one member, `content`.
pub open spec fn content_doc(content: Seq<char>) -> JsonDoc {
    JsonDoc::Object(seq![("content"@, JsonDoc::Text(content))])
}

/// The JSON text that carries a message.
pub open spec fn content_body(content: Seq<char>) -> Seq<char> {
    json_text(content_doc(content))
}

/// Builds the JSON object that carries a message.
pub fn content_value(content: &str) -> (value: serde_json::Value)
    ensures
        doc_of(value) == content_doc(content@),
{
    let mut map = map_new();
    map_insert(&mut map, "content".to_owned(), text_value(content.to_owned()));
    object_value(map)
}

/// Builds the JSON text that carries a message.
pub fn content_text(content: &str) -> (body: String)
    ensures
        body@ == content_body(content@),
{
    let value = content_value(content);
    value_text(&value)
}

/// One outbound call: `body` is to be posted to `url` as JSON.
#[derive(Debug, PartialEq, Eq)]
pub struct Delivery {
    pub url: String,
    pub body: String,
}

/// An outbound call as a mathematical value.
pub struct DeliveryView {
    pub url: Seq<char>,
    pub body: Seq<char>,
}

impl View for Delivery {
    type V = DeliveryView;

    open spec fn view(&self) -> DeliveryView {
        DeliveryView { url: self.url@, body: self.body@ }
    }
}

/// The public address at which alerts for an installation are received.
pub open spec fn callback_url(server_name: Seq<char>, install_id: Seq<char>) -> Seq<char> {
    "https://"@ + server_name + "/alerts/webhooks/"@ + install_id
}

/// The confirmation that answers a configuration request.
pub open spec fn configure_reply(url: Seq<char>) -> Seq<char> {
    "\nTwist configuration successful.\n\n# GCP Notification Channel\nWebhook URL: "@ + url
        + "\n\nA hello message has been sent to your thread and should appear per integration settings.\n\nGCP Notifications will be show up in the thread as per integration settings.\n"@
}

/// The greeting that is posted into the thread of a new installation.
pub open spec fn greeting() -> Seq<char> {
    "Hello from the other side."@
}

/// What a configuration request leads to, in the order in which it is due.
#[derive(Debug, PartialEq, Eq)]
pub struct Configured {
    /// The text to write to the registry's mirror file.
    pub persist: String,
    /// The greeting to post into the installation's thread.
    pub greeting: Delivery,
    /// The text that answers the request.
    pub reply: String,
}

/// An event that the messaging platform sends about an installation.
#[derive(Debug, PartialEq, Eq)]
pub struct Outgoing {
    /// `message`, `thread`, `comment`, `uninstall` or `ping`.
    pub event_type: String,
    pub user_id: String,
    pub user_name: String,
    /// Only on `message`, `thread` and `comment`.
    pub content: Option<String>,
    /// Only on `uninstall`.
    pub install_id: Option<String>,
}

/// The answer to an event.
#[derive(Debug, PartialEq, Eq)]
pub enum OutgoingReply {
    /// The event was handled: this JSON text is the answer's body.
    Answer(String),
    /// The event is of no known kind: the caller made an error.
    ClientError,
}

/// What an event leads to.
#[derive(Debug, PartialEq, Eq)]
pub struct Handled {
    pub reply: OutgoingReply,
    /// The text to write to the registry's mirror file, where the registry
    /// changed.
    pub persist: Option<String>,
}

/// The message that answers an event of the given kind, nothing for a kind
/// that is not known.
pub open spec fn outgoing_content(event_type: Seq<char>) -> Option<Seq<char>> {
    if event_type == "ping"@ {
        Some("pong"@)
    } else if event_type == "message"@ || event_type == "thread"@ || event_type == "comment"@ {
        Some(""@)
    } else if event_type == "uninstall"@ {
        Some("uninstalled!"@)
    } else {
        None
    }
}

/// The kind `uninstall` is none of the kinds that come before it.
proof fn lemma_event_kinds()
    ensures
        "uninstall"@ != "ping"@,
        "uninstall"@ != "message"@,
        "uninstall"@ != "thread"@,
        "uninstall"@ != "comment"@,
{
    reveal_strlit("uninstall");
    reveal_strlit("ping");
    reveal_strlit("message");
    reveal_strlit("thread");
    reveal_strlit("comment");
    assert("uninstall"@.len() == 9);
    assert("ping"@.len() == 4);
    assert("message"@.len() == 7);
    assert("thread"@.len() == 6);
    assert("comment"@.len() == 7);
}

/// Whether two texts are the same.
fn same_text(left: &str, right: &str) -> (same: bool)
    ensures
        same == (left@ == right@),
{
    left.to_owned() == right.to_owned()
}

/// The coordinator's state: the server's public name and the registry.
pub struct ServerState {
    server_name: String,
    store: FileStore,
}

/// The coordinator's state as a mathematical value.
pub struct ServerView {
    pub server_name: Seq<char>,
    pub store: StoreView,
}

impl View for ServerState {
    type V = ServerView;

    closed spec fn view(&self) -> ServerView {
        ServerView { server_name: self.server_name@, store: self.store@ }
    }
}

impl ServerState {
    /// A coordinator for the server of the given public name, over the given
    /// registry.
    pub fn new(name: &str, store: FileStore) -> (state: Self)
        ensures
            state@.server_name == name@,
            state@.store == store@,
    {
        ServerState { server_name: name.to_owned(), store }
    }

    /// The server's public name.
    pub fn server_name(&self) -> (name: &str)
        ensures
            name@ == self@.server_name,
    {
        self.server_name.as_str()
    }

    /// The registry.
    pub fn store(&self) -> (store: &FileStore)
        ensures
            store@ == self@.store,
    {
        &self.store
    }

    /// An installation was configured: it is registered, greeted in its
    /// thread, and told the address to send alerts to.
    pub fn twist_configure(&mut self, cfg: TwistOnConfigure) -> (outcome: Configured)
        ensures
            final(self)@.server_name == old(self)@.server_name,
            final(self)@.store.path == old(self)@.store.path,
            final(self)@.store.records == registered(old(self)@.store.records, cfg@),
            outcome.persist@ == persisted(final(self)@.store.records),
            outcome.greeting@.url == cfg@.post_data_url,
            outcome.greeting@.body == content_body(greeting()),
            outcome.reply@ == configure_reply(
                callback_url(old(self)@.server_name, cfg@.install_id),
            ),
    {
        let url = cfg.post_data_url.clone();
        let mut reply =
            "\nTwist configuration successful.\n\n# GCP Notification Channel\nWebhook URL: ".to_owned();
        reply.append("https://");
        reply.append(self.server_name.as_str());
        reply.append("/alerts/webhooks/");
        reply.append(cfg.install_id.as_str());
        reply.append(
            "\n\nA hello message has been sent to your thread and should appear per integration settings.\n\nGCP Notifications will be show up in the thread as per integration settings.\n",
        );
        assert(reply@ =~= configure_reply(callback_url(self@.server_name, cfg@.install_id)));
        let persist = self.store.register_twist_thread(cfg);
        let greeting = Delivery { url, body: content_text("Hello from the other side.") };
        Configured { persist, greeting, reply }
    }

    /// The messaging platform sent an event: a ping is answered, a message is
    /// acknowledged, an uninstall removes the installation from the registry.
    /// An event of no known kind, and an uninstall that names no
    /// installation, are the client's error: the registry stays as it is.
    pub fn twist_outgoing(&mut self, event: Outgoing) -> (outcome: Handled)
        ensures
            final(self)@.server_name == old(self)@.server_name,
            final(self)@.store.path == old(self)@.store.path,
            match outgoing_answer(event.event_type@, event.install_id is Some) {
                Some(content) => outcome.reply matches OutgoingReply::Answer(body) && body@
                    == content_body(content),
                None => outcome.reply is ClientError,
            },
            final(self)@.store.records == match removed_id(event.event_type@, event.install_id) {
                Some(id) => unregistered(old(self)@.store.records, id),
                None => old(self)@.store.records,
            },
            match outcome.persist {
                Some(text) => text@ == persisted(final(self)@.store.records),
                None => final(self)@.store.records == old(self)@.store.records,
            },
            outcome.persist is Some <==> (removed_id(event.event_type@, event.install_id)
                matches Some(id) && found(old(self)@.store.records, id) is Some),
    {
        proof {
            lemma_event_kinds();
        }
        let kind = event.event_type.as_str();
        if same_text(kind, "ping") {
            Handled { reply: OutgoingReply::Answer(content_text("pong")), persist: None }
        } else if same_text(kind, "message") || same_text(kind, "thread") || same_text(
            kind,
            "comment",
        ) {
            Handled { reply: OutgoingReply::Answer(content_text("")), persist: None }
        } else if same_text(kind, "uninstall") {
            match event.install_id {
                Some(install_id) => {
                    let persist = self.store.unregister_twist_thread(install_id);
                    Handled { reply: OutgoingReply::Answer(content_text("uninstalled!")), persist }
                },
                None => Handled { reply: OutgoingReply::ClientError, persist: None },
            }
        } else {
            Handled { reply: OutgoingReply::ClientError, persist: None }
        }
    }

    /// An alert arrived for an installation: its message is to be posted to
    /// the installation's thread. An alert for an installation that is not
    /// registered is dropped.
    pub fn gcp_webhook(&self, webhook_id: &str, body: String) -> (delivery: Option<Delivery>)
        ensures
            match found(self@.store.records, webhook_id@) {
                Some(record) => delivery matches Some(d) && d@ == alert_delivery(
                    record.configuration.post_data_url,
                    body@,
                ),
                None => delivery is None,
            },
    {
        match reply_to_json(body) {
            Some(reply) => match self.store.find_twist_thread(webhook_id.to_owned()) {
                Some(twist) => Some(
                    Delivery {
                        url: twist.configuration.post_data_url,
                        body: content_text(reply.as_str()),
                    },
                ),
                None => None,
            },
            None => None,
        }
    }
}

/// The installation that an event takes out of the registry: the one that an
/// uninstall names. No other event removes anything, nor does an uninstall
/// that names none.
pub open spec fn removed_id(event_type: Seq<char>, install_id: Option<String>) -> Option<
    Seq<char>,
> {
    if event_type == "uninstall"@ {
        match install_id {
            Some(id) => Some(id@),
            None => None,
        }
    } else {
        None
    }
}

/// The message that answers an event, nothing where the event is the client's
/// error: an event of no known kind, or an uninstall that names no
/// installation.
pub open spec fn outgoing_answer(event_type: Seq<char>, has_id: bool) -> Option<Seq<char>> {
    if event_type == "uninstall"@ && !has_id {
        None
    } else {
        outgoing_content(event_type)
    }
}

/// The outbound call for an alert: the alert's message, carried as JSON, to
/// the installation's address.
pub open spec fn alert_delivery(url: Seq<char>, raw: Seq<char>) -> DeliveryView {
    DeliveryView { url, body: content_body(normalized(parsed(raw), raw)) }
}

} // verus!
