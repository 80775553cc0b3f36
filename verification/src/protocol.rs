//! The control vocabulary of an authenticated connection: one tagged command
//! set, read once where a message enters, with every other message refused.

use vstd::prelude::*;
use crate::capture::ResourceKind;
use crate::text::text_equals;

verus! {

/// A control message as it arrives: `{"type": .., "action": .., "index": ..}`.
#[derive(Debug, PartialEq, Eq)]
pub struct ControlMessage {
    pub message_type: String,
    pub action: String,
    pub index: Option<i32>,
}

/// What a connection may ask for.
#[derive(Clone, Copy, Debug, PartialEq, Eq, Structural)]
pub enum ControlCommand {
    /// Start viewing; the number is the device index to open if none is open.
    Start(i32),
    /// Stop viewing.
    Stop,
}

/// Why a message is no command. The connection stays open after each of them.
#[derive(Clone, Copy, Debug, PartialEq, Eq, Structural)]
pub enum ProtocolError {
    /// The body is no control message at all.
    Malformed,
    /// The message's type is not `control`.
    NotControl,
    /// A start without a device index.
    MissingIndex,
    /// An action that is none of `on`, `start`, `off`, `stop`.
    InvalidAction,
}

/// The command that the fields of a control message stand for.
pub open spec fn spec_interpret(
    message_type: Seq<char>,
    action: Seq<char>,
    index: Option<i32>,
) -> Result<ControlCommand, ProtocolError> {
    if message_type != "control"@ {
        Err(ProtocolError::NotControl)
    } else if action == "on"@ || action == "start"@ {
        match index {
            Some(n) => Ok(ControlCommand::Start(n)),
            None => Err(ProtocolError::MissingIndex),
        }
    } else if action == "off"@ || action == "stop"@ {
        Ok(ControlCommand::Stop)
    } else {
        Err(ProtocolError::InvalidAction)
    }
}

/// The command that a bare text stands for on the audio endpoint: one of its
/// two words. The microphone has no index, so its start asks for device 0.
pub open spec fn spec_interpret_plain(text: Seq<char>) -> Result<ControlCommand, ProtocolError> {
    if text == "start_audio"@ {
        Ok(ControlCommand::Start(0))
    } else if text == "stop_audio"@ {
        Ok(ControlCommand::Stop)
    } else {
        Err(ProtocolError::Malformed)
    }
}

/// The command of an inbound text on a connection of the given kind: that of
/// its parsed body where it has one. A text without such a body is a command
/// on the audio endpoint alone, where the two bare words are heard; on the
/// video endpoint it is malformed, whatever it says.
pub open spec fn spec_decode_command(
    kind: ResourceKind,
    text: Seq<char>,
    parsed: Option<ControlMessage>,
) -> Result<ControlCommand, ProtocolError> {
    match parsed {
        Some(message) => spec_interpret(message.message_type@, message.action@, message.index),
        None => match kind {
            ResourceKind::Audio => spec_interpret_plain(text),
            ResourceKind::Video => Err(ProtocolError::Malformed),
        },
    }
}

/// Reads a parsed control message.
pub fn interpret(message: &ControlMessage) -> (r: Result<ControlCommand, ProtocolError>)
    ensures
        r == spec_interpret(message.message_type@, message.action@, message.index),
{
    if !text_equals(message.message_type.as_str(), "control") {
        return Err(ProtocolError::NotControl);
    }
    let action = message.action.as_str();
    if text_equals(action, "on") || text_equals(action, "start") {
        match message.index {
            Some(n) => Ok(ControlCommand::Start(n)),
            None => Err(ProtocolError::MissingIndex),
        }
    } else if text_equals(action, "off") || text_equals(action, "stop") {
        Ok(ControlCommand::Stop)
    } else {
        Err(ProtocolError::InvalidAction)
    }
}

/// Reads a bare text of the audio endpoint.
pub fn interpret_plain(text: &str) -> (r: Result<ControlCommand, ProtocolError>)
    ensures
        r == spec_interpret_plain(text@),
{
    if text_equals(text, "start_audio") {
        Ok(ControlCommand::Start(0))
    } else if text_equals(text, "stop_audio") {
        Ok(ControlCommand::Stop)
    } else {
        Err(ProtocolError::Malformed)
    }
}

/// Reads an inbound text of a connection of the given kind, whose body was
/// parsed or could not be.
pub fn decode_command(kind: ResourceKind, text: &str, parsed: &Option<ControlMessage>) -> (r: Result<
    ControlCommand,
    ProtocolError,
>)
    ensures
        r == spec_decode_command(kind, text@, *parsed),
{
    match parsed {
        Some(message) => interpret(message),
        None => match kind {
            ResourceKind::Audio => interpret_plain(text),
            ResourceKind::Video => Err(ProtocolError::Malformed),
        },
    }
}

impl ProtocolError {
    /// The text that reports this error to the peer.
    pub open spec fn spec_message(self) -> Seq<char> {
        match self {
            ProtocolError::Malformed => "Malformed control message"@,
            ProtocolError::NotControl => "Unsupported message type"@,
            ProtocolError::MissingIndex => "Missing device index"@,
            ProtocolError::InvalidAction => "Invalid action"@,
        }
    }

    pub fn message(&self) -> (text: String)
        ensures
            text@ == self.spec_message(),
    {
        match self {
            ProtocolError::Malformed => "Malformed control message".to_owned(),
            ProtocolError::NotControl => "Unsupported message type".to_owned(),
            ProtocolError::MissingIndex => "Missing device index".to_owned(),
            ProtocolError::InvalidAction => "Invalid action".to_owned(),
        }
    }
}

} // verus!
