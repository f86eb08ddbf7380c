//! The notification bus: how a payload is published, and what a payload
//! that arrives invalidates.

use vstd::prelude::*;
use crate::constants::{
    NOTIFICATION_PREFIX_DBNAME,
    NOTIFICATION_PREFIX_REQUEST,
    NOTIFICATION_PREFIX_RESPONSE,
    NOTIFICATION_PREFIX_SETTING,
    PROGRAM_NAME,
};
use crate::text::{begins_with, chars_of, push_str, starts_with, string_of};

verus! {

/// A payload that arrived on the notification channel.
#[derive(Clone, Debug)]
pub struct NotificationMessage {
    pub text: String,
}

/// The number of payloads that the bus keeps for a slow subscriber before
/// it drops the oldest.
pub const BROADCAST_CAPACITY: usize = 64;

/// The time, in milliseconds, that the listener waits before it connects
/// again.
pub const RECONNECT_DELAY_MS: u64 = 5000;

/// `s` with every single quote written twice.
pub open spec fn quotes_doubled(s: Seq<char>) -> Seq<char>
    decreases s.len(),
{
    if s.len() == 0 {
        s
    } else if s.last() == '\'' {
        quotes_doubled(s.drop_last()).push('\'').push('\'')
    } else {
        quotes_doubled(s.drop_last()).push(s.last())
    }
}

/// A payload as a literal of the statement that publishes it: the word
/// `NULL` for the empty payload, else the payload between single quotes
/// with every single quote in it written twice.
pub open spec fn escaped(value: Seq<char>) -> Seq<char> {
    if value.len() == 0 {
        "NULL"@
    } else {
        seq!['\''] + quotes_doubled(value) + seq!['\'']
    }
}

/// A payload as a literal of the statement that publishes it.
pub fn escape_single_quotes(value: &str) -> (out: String)
    ensures
        out@ == escaped(value@),
{
    let cs = chars_of(value);
    if cs.len() == 0 {
        return "NULL".to_owned();
    }
    let mut result: Vec<char> = Vec::new();
    result.push('\'');
    let mut i: usize = 0;
    assert(cs@.take(0) =~= Seq::<char>::empty());
    while i < cs.len()
        invariant
            i <= cs.len(),
            result@ == seq!['\''] + quotes_doubled(cs@.take(i as int)),
        decreases cs.len() - i,
    {
        let c = cs[i];
        proof {
            assert(cs@.take(i + 1).drop_last() =~= cs@.take(i as int));
            assert(cs@.take(i + 1).last() == c);
        }
        if c == '\'' {
            result.push(c);
        }
        result.push(c);
        assert(result@ =~= seq!['\''] + quotes_doubled(cs@.take(i + 1)));
        i += 1;
    }
    assert(cs@.take(cs.len() as int) =~= cs@);
    result.push('\'');
    string_of(&result)
}

/// The statement that publishes `payload` on the program's channel.
pub open spec fn notify_statement_of(payload: Seq<char>) -> Seq<char> {
    "NOTIFY "@ + PROGRAM_NAME@ + ", "@ + escaped(payload)
}

/// The statement that publishes `payload` on the program's channel.
pub fn notify_statement(payload: &str) -> (out: String)
    ensures
        out@ == notify_statement_of(payload@),
{
    let mut buf: Vec<char> = Vec::new();
    push_str(&mut buf, "NOTIFY ");
    push_str(&mut buf, PROGRAM_NAME);
    push_str(&mut buf, ", ");
    let literal = escape_single_quotes(payload);
    push_str(&mut buf, literal.as_str());
    string_of(&buf)
}

/// The statement that subscribes a connection to the program's channel.
pub fn listen_statement() -> (out: String)
    ensures
        out@ == "LISTEN "@ + PROGRAM_NAME@,
{
    let mut buf: Vec<char> = Vec::new();
    push_str(&mut buf, "LISTEN ");
    push_str(&mut buf, PROGRAM_NAME);
    string_of(&buf)
}

/// What a payload invalidates.
#[derive(Clone, Copy, Debug, PartialEq, Eq, Structural)]
pub struct Invalidation {
    /// The cache of routes is read again.
    pub requests: bool,
    /// The cache of responses is read again.
    pub responses: bool,
    /// The cache of settings is emptied.
    pub settings: bool,
    /// The directory of database aliases is read again.
    pub databases: bool,
}

/// What the payload `text` invalidates: each cache whose prefix the payload
/// begins with.
pub open spec fn invalidation_of(text: Seq<char>) -> Invalidation {
    Invalidation {
        requests: begins_with(text, NOTIFICATION_PREFIX_REQUEST@),
        responses: begins_with(text, NOTIFICATION_PREFIX_RESPONSE@),
        settings: begins_with(text, NOTIFICATION_PREFIX_SETTING@),
        databases: begins_with(text, NOTIFICATION_PREFIX_DBNAME@),
    }
}

impl NotificationMessage {
    /// The message that carries `payload`.
    pub fn new(payload: &str) -> (m: Self)
        ensures
            m.text@ == payload@,
    {
        NotificationMessage { text: payload.to_owned() }
    }

    /// What the message invalidates.
    pub fn invalidates(&self) -> (r: Invalidation)
        ensures
            r == invalidation_of(self.text@),
    {
        let text = chars_of(self.text.as_str());
        let requests = chars_of(NOTIFICATION_PREFIX_REQUEST);
        let responses = chars_of(NOTIFICATION_PREFIX_RESPONSE);
        let settings = chars_of(NOTIFICATION_PREFIX_SETTING);
        let databases = chars_of(NOTIFICATION_PREFIX_DBNAME);
        Invalidation {
            requests: starts_with(&text, &requests),
            responses: starts_with(&text, &responses),
            settings: starts_with(&text, &settings),
            databases: starts_with(&text, &databases),
        }
    }
}

/// Where the listener of the notification channel stands.
#[derive(Clone, Copy, Debug, PartialEq, Eq, Structural)]
pub enum ListenerPhase {
    /// It has no connection and is about to make one.
    Connecting,
    /// It has a connection and is about to subscribe to the channel.
    Subscribing,
    /// It is subscribed and waits for payloads.
    Listening,
}

/// What happened to the listener.
#[derive(Clone, Debug)]
pub enum ListenerEvent {
    /// The connection was made.
    Connected,
    /// The connection could not be made.
    ConnectFailed,
    /// The subscription went through.
    Subscribed,
    /// The subscription failed.
    SubscribeFailed,
    /// A payload arrived.
    Notified(String),
    /// The wait ended without a payload.
    Silent,
    /// The connection was lost.
    Lost,
}

/// What the listener does next.
#[derive(Clone, Debug)]
pub enum ListenerAction {
    /// Connect to the database: what the listener begins with.
    Connect,
    /// Wait this many milliseconds, then connect to the database.
    Backoff(u64),
    /// Run this statement to subscribe.
    Subscribe(String),
    /// Wait for the next payload.
    Next,
    /// Publish this message on the bus, then wait for the next payload.
    Publish(NotificationMessage),
}

/// A [`ListenerAction`] as a mathematical value.
pub enum ListenerActionView {
    Connect,
    Backoff(u64),
    Subscribe(Seq<char>),
    Next,
    Publish(Seq<char>),
}

impl View for ListenerAction {
    type V = ListenerActionView;

    open spec fn view(&self) -> ListenerActionView {
        match self {
            ListenerAction::Connect => ListenerActionView::Connect,
            ListenerAction::Backoff(ms) => ListenerActionView::Backoff(*ms),
            ListenerAction::Subscribe(statement) => ListenerActionView::Subscribe(statement@),
            ListenerAction::Next => ListenerActionView::Next,
            ListenerAction::Publish(message) => ListenerActionView::Publish(message.text@),
        }
    }
}

/// Where the listener stands after an event, and what it does next.
///
/// A connection that cannot be made, or a subscription that fails, is
/// tried again after the delay. A payload goes out on the bus. A lost
/// connection, like any event that does not fit the phase, is followed by
/// a new connection after the delay.
pub open spec fn listener_next(phase: ListenerPhase, event: ListenerEvent) -> (
    ListenerPhase,
    ListenerActionView,
) {
    match (phase, event) {
        (ListenerPhase::Connecting, ListenerEvent::Connected) => (
            ListenerPhase::Subscribing,
            ListenerActionView::Subscribe("LISTEN "@ + PROGRAM_NAME@),
        ),
        (ListenerPhase::Connecting, ListenerEvent::ConnectFailed) => (
            ListenerPhase::Connecting,
            ListenerActionView::Backoff(RECONNECT_DELAY_MS),
        ),
        (ListenerPhase::Subscribing, ListenerEvent::Subscribed) => (
            ListenerPhase::Listening,
            ListenerActionView::Next,
        ),
        (ListenerPhase::Subscribing, ListenerEvent::SubscribeFailed) => (
            ListenerPhase::Connecting,
            ListenerActionView::Backoff(RECONNECT_DELAY_MS),
        ),
        (ListenerPhase::Listening, ListenerEvent::Notified(payload)) => (
            ListenerPhase::Listening,
            ListenerActionView::Publish(payload@),
        ),
        (ListenerPhase::Listening, ListenerEvent::Silent) => (
            ListenerPhase::Listening,
            ListenerActionView::Next,
        ),
        _ => (ListenerPhase::Connecting, ListenerActionView::Backoff(RECONNECT_DELAY_MS)),
    }
}

/// Where the listener stands after an event, and what it does next.
pub fn listener_step(phase: ListenerPhase, event: ListenerEvent) -> (r: (
    ListenerPhase,
    ListenerAction,
))
    ensures
        (r.0, r.1@) == listener_next(phase, event),
{
    match phase {
        ListenerPhase::Connecting => match event {
            ListenerEvent::Connected => (
                ListenerPhase::Subscribing,
                ListenerAction::Subscribe(listen_statement()),
            ),
            ListenerEvent::ConnectFailed => (
                ListenerPhase::Connecting,
                ListenerAction::Backoff(RECONNECT_DELAY_MS),
            ),
            _ => (ListenerPhase::Connecting, ListenerAction::Backoff(RECONNECT_DELAY_MS)),
        },
        ListenerPhase::Subscribing => match event {
            ListenerEvent::Subscribed => (ListenerPhase::Listening, ListenerAction::Next),
            ListenerEvent::SubscribeFailed => (
                ListenerPhase::Connecting,
                ListenerAction::Backoff(RECONNECT_DELAY_MS),
            ),
            _ => (ListenerPhase::Connecting, ListenerAction::Backoff(RECONNECT_DELAY_MS)),
        },
        ListenerPhase::Listening => match event {
            ListenerEvent::Notified(payload) => (
                ListenerPhase::Listening,
                ListenerAction::Publish(NotificationMessage { text: payload }),
            ),
            ListenerEvent::Silent => (ListenerPhase::Listening, ListenerAction::Next),
            _ => (ListenerPhase::Connecting, ListenerAction::Backoff(RECONNECT_DELAY_MS)),
        },
    }
}

} // verus!
