//! The connection loop: what it does with each notification that the broker
//! connection hands it. It records every one of them and never stops, not
//! on an error either.

use vstd::prelude::*;
use vstd::string::*;

verus! {

/// How much a record matters.
#[derive(Clone, Copy, Debug, PartialEq, Eq, Structural)]
pub enum Severity {
    /// For those who look into how the connection fares.
    Debug,
    /// Something went wrong.
    Error,
}

/// What the broker connection hands to the loop.
#[derive(Clone, Debug, PartialEq, Eq)]
pub enum Notification {
    /// A connection was made, for the client of this name.
    Connected(String),
    /// Any other event, in full.
    Event(String),
    /// The connection ran into an error, described so.
    Error(String),
}

/// A [`Notification`] as plain values.
pub enum NotificationView {
    Connected(Seq<char>),
    Event(Seq<char>),
    Error(Seq<char>),
}

impl View for Notification {
    type V = NotificationView;

    open spec fn view(&self) -> NotificationView {
        match self {
            Notification::Connected(client) => NotificationView::Connected(client@),
            Notification::Event(event) => NotificationView::Event(event@),
            Notification::Error(error) => NotificationView::Error(error@),
        }
    }
}

/// A line for the log.
#[derive(Clone, Debug, PartialEq, Eq)]
pub struct LogRecord {
    pub severity: Severity,
    pub message: String,
}

/// A [`LogRecord`] as plain values.
pub struct LogRecordView {
    pub severity: Severity,
    pub message: Seq<char>,
}

impl View for LogRecord {
    type V = LogRecordView;

    open spec fn view(&self) -> LogRecordView {
        LogRecordView { severity: self.severity, message: self.message@ }
    }
}

/// The record that answers a notification. A connection and any other event
/// are recorded for debugging, with the client's name or the event in full;
/// an error is recorded as an error, with its description.
pub open spec fn spec_record(notification: NotificationView) -> LogRecordView {
    match notification {
        NotificationView::Connected(client) => LogRecordView {
            severity: Severity::Debug,
            message: "Connected to MQTT broker "@ + client,
        },
        NotificationView::Event(event) => LogRecordView {
            severity: Severity::Debug,
            message: "Got event: "@ + event,
        },
        NotificationView::Error(error) => LogRecordView {
            severity: Severity::Error,
            message: "Got an error when polling for events: "@ + error,
        },
    }
}

/// The records that answer `notifications`, one each, in order.
pub open spec fn spec_records(notifications: Seq<NotificationView>) -> Seq<LogRecordView> {
    Seq::new(notifications.len(), |i: int| spec_record(notifications[i]))
}

/// Records one notification. There is no outcome that ends the loop: the
/// connection is left to find its way back by itself.
pub fn handle_notification(notification: &Notification) -> (record: LogRecord)
    ensures
        record@ == spec_record(notification@),
{
    match notification {
        Notification::Connected(client) => {
            let mut message = String::from_str("Connected to MQTT broker ");
            message.append(client.as_str());
            LogRecord { severity: Severity::Debug, message }
        },
        Notification::Event(event) => {
            let mut message = String::from_str("Got event: ");
            message.append(event.as_str());
            LogRecord { severity: Severity::Debug, message }
        },
        Notification::Error(error) => {
            let mut message = String::from_str("Got an error when polling for events: ");
            message.append(error.as_str());
            LogRecord { severity: Severity::Error, message }
        },
    }
}

} // verus!
