use monitor_system_service::capture::ResourceKind;
use monitor_system_service::protocol::decode_command;
use monitor_system_service::protocol::interpret;
use monitor_system_service::protocol::interpret_plain;
use monitor_system_service::protocol::ControlCommand;
use monitor_system_service::protocol::ControlMessage;
use monitor_system_service::protocol::ProtocolError;

fn message(kind: &str, action: &str, index: Option<i32>) -> ControlMessage {
    ControlMessage { message_type: kind.to_string(), action: action.to_string(), index }
}

#[test]
fn on_and_start_ask_for_a_start() {
    assert_eq!(interpret(&message("control", "on", Some(0))), Ok(ControlCommand::Start(0)));
    assert_eq!(interpret(&message("control", "start", Some(7))), Ok(ControlCommand::Start(7)));
    assert_eq!(interpret(&message("control", "on", Some(-1))), Ok(ControlCommand::Start(-1)));
}

#[test]
fn off_and_stop_ask_for_a_stop() {
    assert_eq!(interpret(&message("control", "off", None)), Ok(ControlCommand::Stop));
    assert_eq!(interpret(&message("control", "stop", None)), Ok(ControlCommand::Stop));
    // an index on a stop is of no account
    assert_eq!(interpret(&message("control", "stop", Some(3))), Ok(ControlCommand::Stop));
}

#[test]
fn a_start_without_index_is_refused() {
    assert_eq!(interpret(&message("control", "on", None)), Err(ProtocolError::MissingIndex));
    assert_eq!(interpret(&message("control", "start", None)), Err(ProtocolError::MissingIndex));
}

#[test]
fn an_unknown_action_is_refused() {
    assert_eq!(interpret(&message("control", "pause", Some(0))), Err(ProtocolError::InvalidAction));
    assert_eq!(interpret(&message("control", "ON", Some(0))), Err(ProtocolError::InvalidAction));
    assert_eq!(interpret(&message("control", "", None)), Err(ProtocolError::InvalidAction));
}

#[test]
fn another_type_is_refused_whatever_the_action() {
    assert_eq!(interpret(&message("status", "on", Some(0))), Err(ProtocolError::NotControl));
    assert_eq!(interpret(&message("", "stop", None)), Err(ProtocolError::NotControl));
}

#[test]
fn bare_words_of_the_audio_endpoint() {
    assert_eq!(interpret_plain("start_audio"), Ok(ControlCommand::Start(0)));
    assert_eq!(interpret_plain("stop_audio"), Ok(ControlCommand::Stop));
    assert_eq!(interpret_plain("start_audio "), Err(ProtocolError::Malformed));
    assert_eq!(interpret_plain("{not json"), Err(ProtocolError::Malformed));
    assert_eq!(interpret_plain(""), Err(ProtocolError::Malformed));
}

#[test]
fn a_parsed_body_wins_over_the_bare_text() {
    let parsed = Some(message("control", "off", None));
    assert_eq!(decode_command(ResourceKind::Audio, "start_audio", &parsed), Ok(ControlCommand::Stop));
    assert_eq!(decode_command(ResourceKind::Video, "start_audio", &parsed), Ok(ControlCommand::Stop));
}

#[test]
fn bare_words_are_commands_on_the_audio_endpoint() {
    let audio = ResourceKind::Audio;
    assert_eq!(decode_command(audio, "start_audio", &None), Ok(ControlCommand::Start(0)));
    assert_eq!(decode_command(audio, "stop_audio", &None), Ok(ControlCommand::Stop));
    assert_eq!(decode_command(audio, "hello", &None), Err(ProtocolError::Malformed));
}

#[test]
fn bare_words_are_malformed_on_the_video_endpoint() {
    let video = ResourceKind::Video;
    assert_eq!(decode_command(video, "start_audio", &None), Err(ProtocolError::Malformed));
    assert_eq!(decode_command(video, "stop_audio", &None), Err(ProtocolError::Malformed));
    assert_eq!(decode_command(video, "hello", &None), Err(ProtocolError::Malformed));
    assert_eq!(decode_command(video, "", &None), Err(ProtocolError::Malformed));
    let parsed = Some(message("control", "on", Some(1)));
    assert_eq!(decode_command(video, "", &parsed), Ok(ControlCommand::Start(1)));
}

#[test]
fn error_messages() {
    assert_eq!(ProtocolError::InvalidAction.message(), "Invalid action");
    assert_eq!(ProtocolError::Malformed.message(), "Malformed control message");
    assert_eq!(ProtocolError::NotControl.message(), "Unsupported message type");
    assert_eq!(ProtocolError::MissingIndex.message(), "Missing device index");
}
