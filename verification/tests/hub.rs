use monitor_system_service::hub::BroadcastHub;
use monitor_system_service::media::AudioCommand;
use monitor_system_service::media::VideoCommand;
use monitor_system_service::queue::BoundedQueue;

fn frame(byte: u8) -> VideoCommand {
    VideoCommand::Frame(vec![byte])
}

#[test]
fn queue_is_first_in_first_out() {
    let mut q = BoundedQueue::new(3);
    assert!(q.is_empty());
    assert_eq!(q.capacity(), 3);
    assert!(q.offer(frame(1)));
    assert!(q.offer(frame(2)));
    assert_eq!(q.len(), 2);
    assert_eq!(q.take(), Some(frame(1)));
    assert_eq!(q.take(), Some(frame(2)));
    assert_eq!(q.take(), None);
}

#[test]
fn a_full_queue_drops_the_newest() {
    let mut q = BoundedQueue::new(2);
    assert!(q.offer(frame(1)));
    assert!(q.offer(frame(2)));
    assert!(!q.offer(frame(3)));
    assert_eq!(q.len(), 2);
    assert_eq!(q.take(), Some(frame(1)));
    assert!(q.offer(frame(4)));
    assert_eq!(q.take(), Some(frame(2)));
    assert_eq!(q.take(), Some(frame(4)));
    assert_eq!(q.take(), None);
}

#[test]
fn a_queue_without_room_takes_nothing() {
    let mut q = BoundedQueue::new(0);
    assert!(!q.offer(frame(1)));
    assert!(q.is_empty());
    assert_eq!(q.take(), None);
}

#[test]
fn an_id_subscribes_once() {
    let mut hub = BroadcastHub::new(4);
    assert_eq!(hub.capacity(), 4);
    assert!(!hub.contains(1));
    assert!(hub.subscribe(1));
    assert!(hub.contains(1));
    assert!(!hub.subscribe(1));
    assert!(!hub.is_authenticated(1));
    assert!(!hub.is_viewing(1));
    assert_eq!(hub.pending(1), 0);
    hub.unsubscribe(1);
    assert!(!hub.contains(1));
    hub.unsubscribe(1);
    assert!(hub.subscribe(1));
}

#[test]
fn only_an_authenticated_session_can_view() {
    let mut hub = BroadcastHub::new(4);
    hub.subscribe(1);
    hub.set_viewing(1, true);
    assert!(!hub.is_viewing(1));
    hub.authenticate(1);
    assert!(hub.is_authenticated(1));
    hub.set_viewing(1, true);
    assert!(hub.is_viewing(1));
    // ids that are not subscribed
    hub.authenticate(9);
    hub.set_viewing(9, true);
    assert!(!hub.contains(9));
    assert!(!hub.is_authenticated(9));
    assert!(!hub.is_viewing(9));
}

#[test]
fn units_reach_only_sessions_that_are_authenticated_and_viewing() {
    let mut hub = BroadcastHub::new(4);
    for id in 1..=3u128 {
        hub.subscribe(id);
    }
    // 1: neither; 2: authenticated only; 3: authenticated and viewing
    hub.authenticate(2);
    hub.authenticate(3);
    hub.set_viewing(3, true);
    hub.publish(&frame(7));
    assert_eq!(hub.pending(1), 0);
    assert_eq!(hub.pending(2), 0);
    assert_eq!(hub.pending(3), 1);
    assert_eq!(hub.take(1), None);
    assert_eq!(hub.take(2), None);
    assert_eq!(hub.take(3), Some(frame(7)));
    assert_eq!(hub.take(3), None);
    assert_eq!(hub.take(8), None);
}

#[test]
fn a_slow_session_loses_units_alone() {
    let mut hub = BroadcastHub::new(2);
    for id in [1u128, 2u128] {
        hub.subscribe(id);
        hub.authenticate(id);
        hub.set_viewing(id, true);
    }
    hub.publish(&frame(1));
    hub.publish(&frame(2));
    // session 2 keeps up, session 1 does not
    assert_eq!(hub.take(2), Some(frame(1)));
    assert_eq!(hub.take(2), Some(frame(2)));
    hub.publish(&frame(3));
    assert_eq!(hub.pending(1), 2);
    assert_eq!(hub.pending(2), 1);
    assert_eq!(hub.take(1), Some(frame(1)));
    assert_eq!(hub.take(1), Some(frame(2)));
    assert_eq!(hub.take(1), None);
    assert_eq!(hub.take(2), Some(frame(3)));
}

#[test]
fn orphaned_sessions_keep_what_waits_and_get_no_more() {
    let mut hub = BroadcastHub::new(4);
    hub.subscribe(1);
    hub.authenticate(1);
    hub.set_viewing(1, true);
    hub.publish(&VideoCommand::Error("gone".to_string()));
    hub.orphan();
    assert!(!hub.is_viewing(1));
    assert!(hub.is_authenticated(1));
    hub.publish(&frame(1));
    assert_eq!(hub.pending(1), 1);
    assert_eq!(hub.take(1), Some(VideoCommand::Error("gone".to_string())));
}

#[test]
fn units_keep_their_payload_across_vocabularies() {
    assert_eq!(frame(5).into_audio(), AudioCommand::Data(vec![5]));
    assert_eq!(
        VideoCommand::Error("x".to_string()).into_audio(),
        AudioCommand::Text("x".to_string())
    );
    assert_eq!(AudioCommand::Data(vec![1, 2]).into_video(), VideoCommand::Frame(vec![1, 2]));
    assert_eq!(
        AudioCommand::Text("y".to_string()).into_video(),
        VideoCommand::Error("y".to_string())
    );
    assert_eq!(frame(9).clone(), frame(9));
}
