//! What the sending side makes of a touch and shows of its connection.
//!
//! A touch on the trackpad that does not move is a click: a short one of the
//! left button, a long one of the right. The client keeps one line of status.
//! Each thing that its connection lets it know either replaces that line or
//! leaves it as it is.

use vstd::prelude::*;
use vstd::string::StringExecFns;
use crate::config::{RemoteCommand, TrackpadButton};

verus! {

/// The line after the connection was opened.
pub const OPENED: &'static str = "Connection opened";

/// The line after the host sent a message.
pub const RECEIVED: &'static str = "Received a message";

/// What stands before the words of the connection about an error.
pub const ERROR_HEAD: &'static str = "Connection error: ";

/// What stands before the reason why no connection was made.
pub const REFUSED_HEAD: &'static str = "Failed to connect: ";

/// A touch on the trackpad that does not move.
#[derive(Clone, Copy, Debug, PartialEq, Eq, Structural)]
pub enum Touch {
    Tap,
    LongPress,
}

/// The button that a touch clicks.
pub open spec fn touch_button(touch: Touch) -> TrackpadButton {
    match touch {
        Touch::Tap => TrackpadButton::Left,
        Touch::LongPress => TrackpadButton::Right,
    }
}

/// The command that a touch sends.
pub fn touch_command(touch: Touch) -> (command: RemoteCommand)
    ensures
        command == (RemoteCommand::TrackpadClick { button: touch_button(touch) }),
{
    match touch {
        Touch::Tap => RemoteCommand::TrackpadClick { button: TrackpadButton::Left },
        Touch::LongPress => RemoteCommand::TrackpadClick { button: TrackpadButton::Right },
    }
}

/// One thing that the connection lets the client know.
#[derive(Clone, Debug, PartialEq, Eq)]
pub enum ConnectionEvent {
    Opened,
    /// The host sent a message. What it holds is not looked at.
    Message,
    /// The connection failed, with what it said of the failure.
    Error(String),
    Closed,
}

/// The new line of status after `event`, or `None` where the line stays:
/// when nothing has happened, and when the connection was closed.
pub open spec fn status_text(event: Option<ConnectionEvent>) -> Option<Seq<char>> {
    match event {
        Some(ConnectionEvent::Opened) => Some(OPENED@),
        Some(ConnectionEvent::Message) => Some(RECEIVED@),
        Some(ConnectionEvent::Error(detail)) => Some(ERROR_HEAD@ + detail@),
        Some(ConnectionEvent::Closed) => None,
        None => None,
    }
}

/// The new line of status after `event`, if the line changes.
pub fn status_message(event: Option<ConnectionEvent>) -> (message: Option<String>)
    ensures
        match message {
            Some(line) => status_text(event) == Some(line@),
            None => status_text(event) is None,
        },
{
    match event {
        Some(ConnectionEvent::Opened) => Some(String::from_str(OPENED)),
        Some(ConnectionEvent::Message) => Some(String::from_str(RECEIVED)),
        Some(ConnectionEvent::Error(detail)) => {
            let mut line: String = String::from_str(ERROR_HEAD);
            line.append(detail.as_str());
            Some(line)
        },
        Some(ConnectionEvent::Closed) => None,
        None => None,
    }
}

/// The line of status when no connection could be made, for the reason
/// `detail`.
pub fn refused_message(detail: &str) -> (line: String)
    ensures
        line@ == REFUSED_HEAD@ + detail@,
{
    let mut line: String = String::from_str(REFUSED_HEAD);
    line.append(detail);
    line
}

} // verus!
