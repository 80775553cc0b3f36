use monitor_system_service::auth::AuthGate;
use monitor_system_service::auth::AuthOutcome;
use monitor_system_service::capture::CaptureState;
use monitor_system_service::capture::LoopDirective;
use monitor_system_service::capture::Opened;
use monitor_system_service::capture::ResourceKind;
use monitor_system_service::engine::open_failure_message;
use monitor_system_service::engine::reinit_failure_message;
use monitor_system_service::engine::BroadcastEngine;
use monitor_system_service::engine::Directive;
use monitor_system_service::engine::Outcome;
use monitor_system_service::engine::ReadOutcome;
use monitor_system_service::engine::Reply;
use monitor_system_service::media::VideoCommand;
use monitor_system_service::protocol::ControlCommand;
use monitor_system_service::protocol::ControlMessage;
use monitor_system_service::protocol::ProtocolError;

const GOOD: &str = "Basic YWRtaW46cGFzc3dvcmQ=";
const BAD: &str = "Basic YWRtaW46d3Jvbmc=";

fn engine_of(kind: ResourceKind, capacity: usize) -> BroadcastEngine {
    BroadcastEngine::new(AuthGate::new("admin", "password"), kind, capacity)
}

fn control(action: &str, index: Option<i32>) -> Option<ControlMessage> {
    Some(ControlMessage { message_type: "control".to_string(), action: action.to_string(), index })
}

fn said(reply: Reply) -> Outcome {
    Outcome { reply: Some(reply), directive: Directive::Nothing, close: false }
}

fn nothing() -> Outcome {
    Outcome { reply: None, directive: Directive::Nothing, close: false }
}

/// A session that is connected and authenticated.
fn member(engine: &mut BroadcastEngine, id: u128) {
    assert!(engine.connect(id));
    assert_eq!(engine.on_text(id, GOOD, &None), said(Reply::Authenticated));
}

/// An engine whose device was opened for session 1.
fn streaming_for_one() -> BroadcastEngine {
    let mut engine = engine_of(ResourceKind::Video, 4);
    member(&mut engine, 1);
    let started = engine.on_text(1, "", &control("on", Some(0)));
    assert_eq!(started, Outcome { reply: None, directive: Directive::OpenDevice(0), close: false });
    assert_eq!(engine.open_finished(Ok(())), Opened::Started);
    engine
}

fn frame_of(byte: u8) -> VideoCommand {
    VideoCommand::Frame(vec![byte])
}

#[test]
fn wrong_credentials_close_the_connection() {
    let mut engine = engine_of(ResourceKind::Video, 4);
    assert!(engine.connect(1));
    let outcome = engine.on_text(1, BAD, &None);
    assert_eq!(
        outcome,
        Outcome { reply: Some(Reply::Unauthorized), directive: Directive::Nothing, close: true }
    );
    assert_eq!(Reply::Unauthorized.text(engine.kind()), "Unauthorized");
    assert!(!engine.hub().contains(1));
    // nothing of this connection is processed any more
    let later = engine.on_text(1, GOOD, &None);
    assert_eq!(later, Outcome { reply: None, directive: Directive::Nothing, close: true });
    let later = engine.on_text(1, "", &control("on", Some(0)));
    assert_eq!(later, Outcome { reply: None, directive: Directive::Nothing, close: true });
    assert_eq!(engine.state(), CaptureState::Idle);
    assert_eq!(engine.viewer_count(), 0);
}

#[test]
fn second_viewer_joins_the_running_stream() {
    let mut engine = engine_of(ResourceKind::Video, 4);
    member(&mut engine, 1);
    let a = engine.on_text(1, "", &control("on", Some(0)));
    assert_eq!(a, Outcome { reply: None, directive: Directive::OpenDevice(0), close: false });
    assert_eq!(engine.state(), CaptureState::Opening);
    assert_eq!(engine.open_finished(Ok(())), Opened::Started);
    assert_eq!(Reply::Started.text(engine.kind()), "Video stream started");
    assert_eq!(engine.state(), CaptureState::Streaming);
    assert_eq!(engine.viewer_count(), 1);
    assert!(engine.registry().is_viewer(1));
    assert_eq!(engine.read_finished(ReadOutcome::Frame(vec![1])), LoopDirective::Publish);
    assert_eq!(engine.take(1), Some(frame_of(1)));

    member(&mut engine, 2);
    let b = engine.on_text(2, "", &control("on", Some(0)));
    assert_eq!(b, said(Reply::Joined));
    assert_eq!(Reply::Joined.text(engine.kind()), "Joined existing stream");
    assert_eq!(engine.state(), CaptureState::Streaming);
    assert_eq!(engine.viewer_count(), 2);
    assert_eq!(engine.registry().controller().index(), Some(0));
    assert_eq!(engine.read_finished(ReadOutcome::Frame(vec![2])), LoopDirective::Publish);
    assert_eq!(engine.take(1), Some(frame_of(2)));
    assert_eq!(engine.take(2), Some(frame_of(2)));
    assert_eq!(engine.take(2), None);
}

#[test]
fn disconnect_of_one_viewer_keeps_the_device_for_the_other() {
    let mut engine = streaming_for_one();
    member(&mut engine, 2);
    assert_eq!(engine.on_text(2, "", &control("start", Some(0))), said(Reply::Joined));
    // 1 goes away without a stop
    assert_eq!(engine.disconnect(1), Directive::Nothing);
    assert_eq!(engine.state(), CaptureState::Streaming);
    assert_eq!(engine.viewer_count(), 1);
    assert!(!engine.hub().contains(1));
    assert!(!engine.registry().is_viewer(1));
    assert!(engine.keeps_streaming());
    // 2 stops: the device is released
    let stopped = engine.on_text(2, "", &control("off", None));
    assert_eq!(
        stopped,
        Outcome { reply: Some(Reply::Stopped), directive: Directive::CloseDevice, close: false }
    );
    assert_eq!(Reply::Stopped.text(engine.kind()), "Eyes turned off");
    assert_eq!(engine.state(), CaptureState::Closing);
    assert!(!engine.keeps_streaming());
    assert_eq!(engine.read_finished(ReadOutcome::Frame(vec![1])), LoopDirective::Stop);
    assert_eq!(engine.closed(), Directive::Nothing);
    assert_eq!(engine.state(), CaptureState::Idle);
    assert_eq!(engine.viewer_count(), 0);
}

#[test]
fn device_that_does_not_open() {
    let mut engine = engine_of(ResourceKind::Video, 4);
    member(&mut engine, 1);
    let outcome = engine.on_text(1, "", &control("on", Some(99)));
    assert_eq!(outcome, Outcome { reply: None, directive: Directive::OpenDevice(99), close: false });
    assert_eq!(engine.open_finished(Err("no such device".to_string())), Opened::RolledBack);
    assert_eq!(engine.state(), CaptureState::Idle);
    assert_eq!(engine.viewer_count(), 0);
    assert_eq!(engine.registry().controller().refcount(), 0);
    assert!(!engine.hub().is_viewing(1));
    assert_eq!(engine.take(1), Some(VideoCommand::Error("Failed to open camera".to_string())));
    assert_eq!(engine.take(1), None);
    // the session may try again
    let again = engine.on_text(1, "", &control("on", Some(0)));
    assert_eq!(again, Outcome { reply: None, directive: Directive::OpenDevice(0), close: false });
}

#[test]
fn a_failed_open_reaches_the_viewers_of_that_moment_only() {
    let mut engine = engine_of(ResourceKind::Video, 4);
    member(&mut engine, 1);
    member(&mut engine, 2);
    member(&mut engine, 3);
    engine.on_text(1, "", &control("on", Some(5)));
    assert_eq!(engine.on_text(2, "", &control("on", Some(5))), said(Reply::Joined));
    assert_eq!(engine.open_finished(Err("no such device".to_string())), Opened::RolledBack);
    assert_eq!(engine.hub().pending(1), 1);
    assert_eq!(engine.hub().pending(2), 1);
    assert_eq!(engine.hub().pending(3), 0);
    assert!(!engine.hub().is_viewing(2));
}

#[test]
fn messages_before_authentication_are_credentials_only() {
    let mut engine = engine_of(ResourceKind::Video, 4);
    assert!(engine.connect(1));
    // a well-formed start is held against the credential, and fails it
    let outcome = engine.on_text(1, "{\"type\":\"control\"}", &control("on", Some(0)));
    assert_eq!(
        outcome,
        Outcome { reply: Some(Reply::Unauthorized), directive: Directive::Nothing, close: true }
    );
    assert_eq!(engine.state(), CaptureState::Idle);
    // a command handed over directly is not heard either
    assert!(engine.connect(2));
    assert_eq!(engine.command(2, Ok(ControlCommand::Start(0))), nothing());
    assert_eq!(engine.command(7, Ok(ControlCommand::Start(0))), nothing());
    assert_eq!(engine.state(), CaptureState::Idle);
    assert_eq!(engine.viewer_count(), 0);
}

#[test]
fn a_credential_after_authentication_is_a_command_like_any_other() {
    let mut engine = engine_of(ResourceKind::Video, 4);
    member(&mut engine, 1);
    assert_eq!(
        engine.on_text(1, GOOD, &None),
        said(Reply::Invalid(ProtocolError::Malformed))
    );
    assert_eq!(engine.credential(1, AuthOutcome::Unauthorized), nothing());
    assert!(engine.hub().is_authenticated(1));
}

#[test]
fn an_unauthenticated_session_receives_nothing() {
    let mut engine = streaming_for_one();
    assert!(engine.connect(2));
    for byte in 0..6u8 {
        assert_eq!(engine.read_finished(ReadOutcome::Frame(vec![byte])), LoopDirective::Publish);
    }
    assert_eq!(engine.hub().pending(2), 0);
    assert_eq!(engine.take(2), None);
    assert_eq!(engine.reinit_finished(false), LoopDirective::Abort);
    assert_eq!(engine.hub().pending(2), 0);
    assert_eq!(engine.hub().pending(1), 4);
}

#[test]
fn a_session_that_stopped_receives_nothing_until_it_starts_again() {
    let mut engine = streaming_for_one();
    member(&mut engine, 2);
    assert_eq!(engine.on_text(2, "", &control("on", Some(0))), said(Reply::Joined));
    assert_eq!(engine.read_finished(ReadOutcome::Frame(vec![1])), LoopDirective::Publish);
    let stopped = engine.on_text(2, "", &control("stop", None));
    assert_eq!(stopped, said(Reply::StoppedOthersRemain));
    assert_eq!(
        Reply::StoppedOthersRemain.text(engine.kind()),
        "Stopped viewing. Other clients are still viewing."
    );
    assert_eq!(engine.read_finished(ReadOutcome::Frame(vec![2])), LoopDirective::Publish);
    assert_eq!(engine.read_finished(ReadOutcome::Frame(vec![3])), LoopDirective::Publish);
    // what waited before the stop is still delivered; nothing came after it
    assert_eq!(engine.take(2), Some(frame_of(1)));
    assert_eq!(engine.take(2), None);
    assert_eq!(engine.hub().pending(1), 3);
    assert_eq!(engine.on_text(2, "", &control("on", Some(0))), said(Reply::Joined));
    assert_eq!(engine.read_finished(ReadOutcome::Frame(vec![4])), LoopDirective::Publish);
    assert_eq!(engine.take(2), Some(frame_of(4)));
}

#[test]
fn start_and_stop_out_of_turn() {
    let mut engine = streaming_for_one();
    assert_eq!(engine.on_text(1, "", &control("on", Some(3))), said(Reply::AlreadyActive));
    assert_eq!(Reply::AlreadyActive.text(engine.kind()), "Stream already active");
    assert_eq!(engine.viewer_count(), 1);
    assert_eq!(engine.registry().controller().index(), Some(0));
    member(&mut engine, 2);
    assert_eq!(engine.on_text(2, "", &control("off", None)), said(Reply::NotViewing));
    assert_eq!(Reply::NotViewing.text(engine.kind()), "Not viewing");
    assert_eq!(engine.viewer_count(), 1);
    assert_eq!(engine.state(), CaptureState::Streaming);
}

#[test]
fn messages_that_are_no_commands_leave_the_session_as_it_is() {
    let mut engine = streaming_for_one();
    let unknown = engine.on_text(1, "", &control("zoom", None));
    assert_eq!(unknown, said(Reply::Invalid(ProtocolError::InvalidAction)));
    assert_eq!(Reply::Invalid(ProtocolError::InvalidAction).text(engine.kind()), "Invalid action");
    let garbled = engine.on_text(1, "{oops", &None);
    assert_eq!(garbled, said(Reply::Invalid(ProtocolError::Malformed)));
    let no_index = engine.on_text(1, "", &control("on", None));
    assert_eq!(no_index, said(Reply::Invalid(ProtocolError::MissingIndex)));
    let other = Some(ControlMessage {
        message_type: "chat".to_string(),
        action: "on".to_string(),
        index: Some(0),
    });
    assert_eq!(engine.on_text(1, "", &other), said(Reply::Invalid(ProtocolError::NotControl)));
    assert!(engine.hub().is_viewing(1));
    assert_eq!(engine.state(), CaptureState::Streaming);
    assert_eq!(engine.viewer_count(), 1);
}

#[test]
fn a_start_while_the_device_is_released_is_counted() {
    let mut engine = streaming_for_one();
    member(&mut engine, 2);
    engine.on_text(1, "", &control("off", None));
    assert_eq!(engine.state(), CaptureState::Closing);
    // the loop has seen the end of the stream and releases the device
    assert_eq!(engine.read_finished(ReadOutcome::Failed), LoopDirective::Stop);
    assert_eq!(engine.on_text(2, "", &control("on", Some(0))), said(Reply::Joined));
    assert!(engine.hub().is_viewing(2));
    assert!(engine.registry().is_viewer(2));
    assert_eq!(engine.viewer_count(), 1);
    assert_eq!(engine.state(), CaptureState::Streaming);
    // the release is reported: the device is opened once more
    assert_eq!(engine.closed(), Directive::OpenDevice(0));
    assert_eq!(engine.state(), CaptureState::Opening);
    assert_eq!(engine.open_finished(Ok(())), Opened::Started);
    assert_eq!(engine.read_finished(ReadOutcome::Frame(vec![5])), LoopDirective::Publish);
    assert_eq!(engine.take(2), Some(frame_of(5)));
    assert_eq!(engine.take(1), None);
}

#[test]
fn a_start_before_the_loop_stopped_keeps_the_stream() {
    let mut engine = streaming_for_one();
    member(&mut engine, 2);
    let stopped = engine.on_text(1, "", &control("off", None));
    assert_eq!(stopped.directive, Directive::CloseDevice);
    assert_eq!(engine.on_text(2, "", &control("on", Some(0))), said(Reply::Joined));
    assert!(engine.keeps_streaming());
    assert_eq!(engine.read_finished(ReadOutcome::Frame(vec![6])), LoopDirective::Publish);
    assert_eq!(engine.take(2), Some(frame_of(6)));
}

#[test]
fn bare_audio_words_are_no_commands_on_a_video_connection() {
    let mut engine = engine_of(ResourceKind::Video, 4);
    member(&mut engine, 1);
    let outcome = engine.on_text(1, "start_audio", &None);
    assert_eq!(outcome, said(Reply::Invalid(ProtocolError::Malformed)));
    assert_eq!(engine.state(), CaptureState::Idle);
    assert_eq!(engine.viewer_count(), 0);
    assert!(!engine.hub().is_viewing(1));
    let watching = engine.on_text(1, "", &control("on", Some(0)));
    assert_eq!(watching.directive, Directive::OpenDevice(0));
    assert_eq!(engine.on_text(1, "stop_audio", &None), said(Reply::Invalid(ProtocolError::Malformed)));
    assert!(engine.hub().is_viewing(1));
    assert_eq!(engine.viewer_count(), 1);
    // the next message is handled as any other
    assert_eq!(engine.on_text(1, "", &control("off", None)), said(Reply::Stopped));
}

#[test]
fn a_failed_audio_open_tells_the_reason() {
    let mut engine = engine_of(ResourceKind::Audio, 4);
    member(&mut engine, 1);
    member(&mut engine, 2);
    assert_eq!(
        engine.on_text(1, "start_audio", &None),
        Outcome { reply: None, directive: Directive::OpenDevice(0), close: false }
    );
    let report = Err("No input device available".to_string());
    assert_eq!(engine.open_finished(report), Opened::RolledBack);
    assert_eq!(
        engine.take(1),
        Some(VideoCommand::Error("Failed to start audio: No input device available".to_string()))
    );
    assert_eq!(engine.take(1), None);
    assert_eq!(engine.take(2), None);
    assert_eq!(engine.state(), CaptureState::Idle);
    assert_eq!(engine.viewer_count(), 0);
    assert!(!engine.hub().is_viewing(1));
    // the connection goes on, and a later start tries again
    assert_eq!(
        engine.on_text(1, "start_audio", &None),
        Outcome { reply: None, directive: Directive::OpenDevice(0), close: false }
    );
    assert_eq!(engine.open_finished(Ok(())), Opened::Started);
}

#[test]
fn the_reply_to_a_report_of_an_open_attempt() {
    assert_eq!(Opened::Started.reply(), Some(Reply::Started));
    assert_eq!(Opened::RolledBack.reply(), None);
    assert_eq!(Opened::CloseNow.reply(), None);
    assert_eq!(Opened::Dropped.reply(), None);
    assert_eq!(Opened::Ignored.reply(), None);
    let mut engine = engine_of(ResourceKind::Video, 4);
    member(&mut engine, 1);
    engine.on_text(1, "", &control("on", Some(0)));
    let reply = engine.open_finished(Ok(())).reply();
    assert_eq!(reply, Some(Reply::Started));
}

#[test]
fn device_is_held_exactly_while_somebody_views() {
    let mut engine = engine_of(ResourceKind::Video, 2);
    let held = |e: &BroadcastEngine| {
        matches!(e.state(), CaptureState::Opening | CaptureState::Streaming)
    };
    assert_eq!(held(&engine), engine.viewer_count() > 0);
    for id in 1..=3u128 {
        member(&mut engine, id);
        assert_eq!(held(&engine), engine.viewer_count() > 0);
    }
    engine.on_text(1, "", &control("on", Some(0)));
    assert_eq!((held(&engine), engine.viewer_count()), (true, 1));
    engine.on_text(2, "", &control("on", Some(0)));
    assert_eq!((held(&engine), engine.viewer_count()), (true, 2));
    engine.open_finished(Ok(()));
    assert_eq!((held(&engine), engine.viewer_count()), (true, 2));
    engine.on_text(3, "", &control("on", Some(1)));
    assert_eq!((held(&engine), engine.viewer_count()), (true, 3));
    engine.disconnect(2);
    engine.on_text(3, "", &control("off", None));
    assert_eq!((held(&engine), engine.viewer_count()), (true, 1));
    assert_eq!(engine.disconnect(1), Directive::CloseDevice);
    assert_eq!((held(&engine), engine.viewer_count()), (false, 0));
    member(&mut engine, 4);
    engine.on_text(4, "", &control("on", Some(0)));
    assert_eq!((held(&engine), engine.viewer_count()), (true, 1));
    engine.closed();
    assert_eq!((held(&engine), engine.viewer_count()), (true, 1));
    engine.disconnect(4);
    assert_eq!((held(&engine), engine.viewer_count()), (false, 0));
}

#[test]
fn racing_starts_open_one_device() {
    let mut engine = engine_of(ResourceKind::Video, 2);
    let mut opens = 0;
    for id in 1..=5u128 {
        member(&mut engine, id);
        let outcome = engine.on_text(id, "", &control("on", Some(0)));
        if let Directive::OpenDevice(_) = outcome.directive {
            opens += 1;
        }
    }
    assert_eq!(opens, 1);
    assert_eq!(engine.open_finished(Ok(())), Opened::Started);
    assert_eq!(engine.viewer_count(), 5);
    // a second report of an open device is told to release it
    assert_eq!(engine.open_finished(Ok(())), Opened::CloseNow);
    assert_eq!(engine.state(), CaptureState::Streaming);
}

#[test]
fn recovery_after_three_failed_reads() {
    let mut engine = streaming_for_one();
    assert_eq!(engine.read_finished(ReadOutcome::Failed), LoopDirective::Continue);
    // an empty frame counts as a failed read
    assert_eq!(engine.read_finished(ReadOutcome::Frame(vec![])), LoopDirective::Continue);
    assert_eq!(engine.read_finished(ReadOutcome::Failed), LoopDirective::Reinitialize);
    assert_eq!(engine.registry().controller().failures(), 3);
    assert_eq!(engine.hub().pending(1), 0);
    assert_eq!(engine.reinit_finished(true), LoopDirective::Continue);
    assert_eq!(engine.registry().controller().failures(), 0);
    assert_eq!(engine.read_finished(ReadOutcome::Frame(vec![9])), LoopDirective::Publish);
    assert_eq!(engine.registry().controller().failures(), 0);
    assert_eq!(engine.state(), CaptureState::Streaming);
    assert_eq!(engine.take(1), Some(frame_of(9)));
}

#[test]
fn a_frame_that_cannot_be_encoded_is_a_good_read_without_a_unit() {
    let mut engine = streaming_for_one();
    assert_eq!(engine.read_finished(ReadOutcome::Failed), LoopDirective::Continue);
    assert_eq!(engine.read_finished(ReadOutcome::Unencodable), LoopDirective::Continue);
    assert_eq!(engine.registry().controller().failures(), 0);
    assert_eq!(engine.hub().pending(1), 0);
}

#[test]
fn a_failed_reopen_tells_every_viewer_and_ends_the_stream() {
    let mut engine = engine_of(ResourceKind::Audio, 4);
    member(&mut engine, 1);
    member(&mut engine, 2);
    member(&mut engine, 3);
    assert_eq!(
        engine.on_text(1, "start_audio", &None),
        Outcome { reply: None, directive: Directive::OpenDevice(0), close: false }
    );
    assert_eq!(engine.open_finished(Ok(())), Opened::Started);
    assert_eq!(Reply::Started.text(engine.kind()), "Audio started");
    assert_eq!(engine.on_text(2, "start_audio", &None), said(Reply::Joined));
    for _ in 0..2 {
        assert_eq!(engine.read_finished(ReadOutcome::Failed), LoopDirective::Continue);
    }
    assert_eq!(engine.read_finished(ReadOutcome::Failed), LoopDirective::Reinitialize);
    assert_eq!(engine.reinit_finished(false), LoopDirective::Abort);
    assert_eq!(engine.state(), CaptureState::Idle);
    assert_eq!(engine.viewer_count(), 0);
    let told = VideoCommand::Error("Failed to reinitialize audio".to_string());
    assert_eq!(engine.take(1), Some(told.clone()));
    assert_eq!(engine.take(2), Some(told));
    assert_eq!(engine.take(3), None);
    // orphaned viewers start anew
    assert!(!engine.hub().is_viewing(1));
    assert_eq!(
        engine.on_text(2, "start_audio", &None),
        Outcome { reply: None, directive: Directive::OpenDevice(0), close: false }
    );
    assert_eq!(engine.on_text(1, "stop_audio", &None), said(Reply::NotViewing));
    assert_eq!(Reply::Stopped.text(engine.kind()), "Audio stopped");
}

#[test]
fn failure_messages_by_kind() {
    assert_eq!(open_failure_message(ResourceKind::Video, "busy"), "Failed to open camera");
    assert_eq!(open_failure_message(ResourceKind::Video, ""), "Failed to open camera");
    assert_eq!(open_failure_message(ResourceKind::Audio, "busy"), "Failed to start audio: busy");
    assert_eq!(open_failure_message(ResourceKind::Audio, ""), "Failed to start audio: ");
    assert_eq!(reinit_failure_message(ResourceKind::Video), "Failed to reinitialize camera");
    assert_eq!(reinit_failure_message(ResourceKind::Audio), "Failed to reinitialize audio");
    assert_eq!(Reply::Authenticated.text(ResourceKind::Video), "Authenticated");
}

#[test]
fn a_slow_viewer_never_holds_up_the_others() {
    let mut engine = streaming_for_one();
    member(&mut engine, 2);
    engine.on_text(2, "", &control("on", Some(0)));
    for byte in 0..10u8 {
        assert_eq!(engine.read_finished(ReadOutcome::Frame(vec![byte])), LoopDirective::Publish);
        // 2 drains at once, 1 never does
        assert_eq!(engine.take(2), Some(frame_of(byte)));
    }
    assert_eq!(engine.hub().pending(1), 4);
    for byte in 0..4u8 {
        assert_eq!(engine.take(1), Some(frame_of(byte)));
    }
    assert_eq!(engine.take(1), None);
}

#[test]
fn fresh_identifiers_are_random_ones() {
    let mut engine = engine_of(ResourceKind::Video, 4);
    let a = engine.subscribe().unwrap();
    let b = engine.subscribe().unwrap();
    assert_ne!(a, b);
    for id in [a, b] {
        assert!(engine.hub().contains(id));
        assert_eq!((id >> 76) & 0xF, 4);
        assert_eq!((id >> 62) & 0x3, 2);
    }
    assert!(!engine.connect(a));
}

#[test]
fn a_disconnect_of_a_stranger_changes_nothing() {
    let mut engine = streaming_for_one();
    assert_eq!(engine.disconnect(42), Directive::Nothing);
    assert_eq!(engine.viewer_count(), 1);
    assert_eq!(engine.state(), CaptureState::Streaming);
}

#[test]
fn the_only_viewer_leaves_while_the_device_is_opened() {
    let mut engine = engine_of(ResourceKind::Video, 4);
    member(&mut engine, 1);
    engine.on_text(1, "", &control("on", Some(0)));
    assert_eq!(engine.state(), CaptureState::Opening);
    assert_eq!(engine.on_text(1, "", &control("off", None)), said(Reply::Stopped));
    assert_eq!(engine.state(), CaptureState::Closing);
    assert_eq!(engine.viewer_count(), 0);
    // the device opens after all: it is to be released at once
    assert_eq!(engine.open_finished(Ok(())), Opened::CloseNow);
    assert_eq!(engine.state(), CaptureState::Closing);
    assert_eq!(engine.closed(), Directive::Nothing);
    assert_eq!(engine.state(), CaptureState::Idle);
    assert_eq!(engine.take(1), None);

    let mut other = engine_of(ResourceKind::Video, 4);
    member(&mut other, 1);
    other.on_text(1, "", &control("on", Some(0)));
    assert_eq!(other.disconnect(1), Directive::Nothing);
    assert_eq!(other.state(), CaptureState::Closing);
    assert_eq!(other.open_finished(Err("no such device".to_string())), Opened::Dropped);
    assert_eq!(other.state(), CaptureState::Idle);
}
