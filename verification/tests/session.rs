use screencast::frame::EncodedFrame;
use screencast::hub::BroadcastHub;
use screencast::input::{Coordinate, TouchEvent};
use screencast::network::wire::Inbound;
use screencast::network::{Failure, Message, SessionState, WebSocketServer, OUTBOUND_CAPACITY};

fn frame(tag: u8) -> EncodedFrame {
    EncodedFrame::new(vec![tag, tag], 2, 2, 80)
}

fn streaming(hub: &mut BroadcastHub) -> WebSocketServer {
    let mut session = WebSocketServer::new();
    assert!(session.open(hub));
    session
}

fn binary(message: Option<Message>) -> Vec<u8> {
    match message {
        Some(Message::Binary(bytes)) => bytes,
        other => panic!("expected a binary message, got {:?}", other),
    }
}

fn text(message: Option<Message>) -> String {
    match message {
        Some(Message::Text(text)) => text,
        other => panic!("expected a text message, got {:?}", other),
    }
}

#[test]
fn new_session_is_handshaking() {
    let session = WebSocketServer::new();
    assert_eq!(session.state(), SessionState::Handshaking);
    assert_eq!(session.handle(), None);
    assert_eq!(session.queued_len(), 0);
}

#[test]
fn open_attaches_and_starts_streaming() {
    let mut hub = BroadcastHub::new(2);
    let mut session = WebSocketServer::new();
    assert!(session.open(&mut hub));
    assert_eq!(session.state(), SessionState::Streaming);
    let handle = session.handle().unwrap();
    assert!(hub.is_attached(handle));
    assert_eq!(hub.subscriber_count(), 1);
    // a second open does nothing
    assert!(!session.open(&mut hub));
    assert_eq!(hub.subscriber_count(), 1);
    assert_eq!(session.handle(), Some(handle));
}

#[test]
fn ping_yields_exactly_one_pong() {
    let mut hub = BroadcastHub::new(2);
    let mut session = streaming(&mut hub);
    assert_eq!(session.on_text(r#"{"type":"ping","timestamp":1234}"#), None);
    assert_eq!(session.queued_len(), 1);
    assert_eq!(text(session.next_outbound()), r#"{"type":"pong","timestamp":1234}"#);
    assert!(session.next_outbound().is_none());
}

#[test]
fn ping_yields_one_pong_with_frames_in_flight() {
    let mut hub = BroadcastHub::new(4);
    let mut session = streaming(&mut hub);
    hub.publish(frame(1));
    hub.publish(frame(2));
    assert_eq!(session.forward_frames(&mut hub), 2);
    hub.publish(frame(3));
    // two frames wait to be written, one waits at the hub
    assert_eq!(session.on_text(r#"{"type":"ping","timestamp":1234}"#), None);
    assert_eq!(session.queued_len(), 3);
    assert_eq!(session.forward_frames(&mut hub), 1);

    // one writer, arrival order
    assert_eq!(binary(session.next_outbound()), vec![1, 1]);
    assert_eq!(binary(session.next_outbound()), vec![2, 2]);
    assert_eq!(text(session.next_outbound()), r#"{"type":"pong","timestamp":1234}"#);
    assert_eq!(binary(session.next_outbound()), vec![3, 3]);
    assert!(session.next_outbound().is_none());
    // the reply did not go through the hub
    assert_eq!(hub.pending(session.handle().unwrap()), Some(0));
}

#[test]
fn repeated_pings_yield_repeated_pongs() {
    let mut hub = BroadcastHub::new(2);
    let mut session = streaming(&mut hub);
    for _ in 0..3 {
        session.on_text(r#"{"type":"ping","timestamp":1234}"#);
    }
    assert_eq!(session.queued_len(), 3);
    for _ in 0..3 {
        assert_eq!(text(session.next_outbound()), r#"{"type":"pong","timestamp":1234}"#);
    }
}

#[test]
fn malformed_message_leaves_the_session_streaming() {
    let mut hub = BroadcastHub::new(4);
    let mut session = streaming(&mut hub);
    hub.publish(frame(1));
    assert_eq!(session.on_text("not json"), None);
    assert_eq!(session.state(), SessionState::Streaming);
    assert_eq!(session.queued_len(), 0);
    hub.publish(frame(2));
    assert_eq!(session.forward_frames(&mut hub), 2);
    assert_eq!(binary(session.next_outbound()), vec![1, 1]);
    assert_eq!(binary(session.next_outbound()), vec![2, 2]);
    // and it still answers probes
    session.on_text(r#"{"type":"ping","timestamp":7}"#);
    assert_eq!(text(session.next_outbound()), r#"{"type":"pong","timestamp":7}"#);
}

#[test]
fn unknown_envelope_is_ignored() {
    let mut hub = BroadcastHub::new(2);
    let mut session = streaming(&mut hub);
    assert_eq!(session.on_text(r#"{"type":"hello"}"#), None);
    assert_eq!(session.on_text(r#"{"type":"ping"}"#), None);
    assert_eq!(session.queued_len(), 0);
    assert_eq!(session.state(), SessionState::Streaming);
}

#[test]
fn input_envelope_is_handed_back_for_routing() {
    let mut hub = BroadcastHub::new(2);
    let mut session = streaming(&mut hub);
    let event = session.on_text(r#"{"type":"start","x":12.5,"y":40}"#);
    assert_eq!(
        event,
        Some(TouchEvent::Start {
            x: Coordinate { bits: 12.5f64.to_bits() },
            y: Coordinate { bits: 40.0f64.to_bits() },
        })
    );
    assert_eq!(session.on_text(r#"{"type":"end"}"#), Some(TouchEvent::End));
    assert_eq!(session.queued_len(), 0);
}

#[test]
fn on_inbound_acts_on_what_is_asked() {
    let mut hub = BroadcastHub::new(2);
    let mut session = streaming(&mut hub);
    assert_eq!(session.on_inbound(Inbound::Ignored), None);
    assert_eq!(session.on_inbound(Inbound::Input(TouchEvent::End)), Some(TouchEvent::End));
    assert_eq!(session.queued_len(), 0);
    assert_eq!(session.on_inbound(Inbound::Ping { timestamp: -9 }), None);
    assert_eq!(text(session.next_outbound()), r#"{"type":"pong","timestamp":-9}"#);
}

#[test]
fn messages_are_not_taken_before_streaming() {
    let mut session = WebSocketServer::new();
    assert_eq!(session.on_text(r#"{"type":"ping","timestamp":1}"#), None);
    assert_eq!(session.on_text(r#"{"type":"end"}"#), None);
    assert_eq!(session.queued_len(), 0);
    assert!(session.next_outbound().is_none());
    let mut hub = BroadcastHub::new(2);
    assert_eq!(session.forward_frames(&mut hub), 0);
}

#[test]
fn frames_are_forwarded_in_publish_order() {
    let mut hub = BroadcastHub::new(8);
    let mut session = streaming(&mut hub);
    for tag in 1..=5u8 {
        hub.publish(frame(tag));
    }
    assert_eq!(session.forward_frames(&mut hub), 5);
    assert_eq!(session.forward_frames(&mut hub), 0);
    for tag in 1..=5u8 {
        assert_eq!(binary(session.next_outbound()), vec![tag, tag]);
    }
}

#[test]
fn lagging_session_sees_a_gap_but_keeps_order() {
    let mut hub = BroadcastHub::new(2);
    let mut session = streaming(&mut hub);
    for tag in 1..=5u8 {
        hub.publish(frame(tag));
    }
    assert_eq!(hub.lag(session.handle().unwrap()), Some(3));
    assert_eq!(session.forward_frames(&mut hub), 2);
    assert_eq!(binary(session.next_outbound()), vec![4, 4]);
    assert_eq!(binary(session.next_outbound()), vec![5, 5]);
}

#[test]
fn forwarding_stops_when_the_outbound_queue_is_full() {
    let mut hub = BroadcastHub::new(OUTBOUND_CAPACITY + 10);
    let mut session = streaming(&mut hub);
    for tag in 0..(OUTBOUND_CAPACITY + 5) {
        hub.publish(frame(tag as u8));
    }
    assert_eq!(session.forward_frames(&mut hub), OUTBOUND_CAPACITY);
    assert_eq!(session.queued_len(), OUTBOUND_CAPACITY);
    assert_eq!(hub.pending(session.handle().unwrap()), Some(5));
    assert_eq!(session.forward_frames(&mut hub), 0);
    // a reply is still taken
    session.on_text(r#"{"type":"ping","timestamp":1}"#);
    assert_eq!(session.queued_len(), OUTBOUND_CAPACITY + 1);
    // once one is written there is room again
    assert_eq!(binary(session.next_outbound()), vec![0, 0]);
    assert_eq!(session.forward_frames(&mut hub), 0);
    assert_eq!(binary(session.next_outbound()), vec![1, 1]);
    assert_eq!(session.forward_frames(&mut hub), 1);
}

#[test]
fn send_failure_closes_the_session_and_detaches_it() {
    let mut hub = BroadcastHub::new(4);
    let mut session = streaming(&mut hub);
    let mut other = streaming(&mut hub);
    let handle = session.handle().unwrap();
    hub.publish(frame(1));
    session.forward_frames(&mut hub);

    session.on_failure(Failure::SendFailed);
    assert_eq!(session.state(), SessionState::Closing);
    // nothing new is started
    assert!(session.next_outbound().is_none());
    assert_eq!(session.on_text(r#"{"type":"ping","timestamp":1}"#), None);
    hub.publish(frame(2));
    assert_eq!(session.forward_frames(&mut hub), 0);
    assert!(hub.is_attached(handle));

    session.release(&mut hub);
    assert_eq!(session.state(), SessionState::Closed);
    assert_eq!(session.handle(), None);
    assert_eq!(session.queued_len(), 0);
    assert!(!hub.is_attached(handle));

    // the other session is not affected
    assert_eq!(other.state(), SessionState::Streaming);
    assert_eq!(other.forward_frames(&mut hub), 2);
    assert_eq!(binary(other.next_outbound()), vec![1, 1]);
    assert_eq!(binary(other.next_outbound()), vec![2, 2]);
}

#[test]
fn every_failure_starts_closing() {
    for cause in [Failure::SendFailed, Failure::ReadFailed, Failure::PeerClosed, Failure::Shutdown]
    {
        let mut hub = BroadcastHub::new(2);
        let mut session = streaming(&mut hub);
        session.on_failure(cause);
        assert_eq!(session.state(), SessionState::Closing);
        session.on_failure(cause);
        assert_eq!(session.state(), SessionState::Closing);
        session.release(&mut hub);
        assert_eq!(session.state(), SessionState::Closed);
        session.on_failure(cause);
        assert_eq!(session.state(), SessionState::Closed);
        assert_eq!(hub.subscriber_count(), 0);
    }
}

#[test]
fn failure_during_handshake_closes_without_a_handle() {
    let mut hub = BroadcastHub::new(2);
    let mut session = WebSocketServer::new();
    session.on_failure(Failure::PeerClosed);
    assert_eq!(session.state(), SessionState::Closing);
    assert!(!session.open(&mut hub));
    session.release(&mut hub);
    assert_eq!(session.state(), SessionState::Closed);
    assert_eq!(hub.subscriber_count(), 0);
}

#[test]
fn release_does_nothing_unless_closing() {
    let mut hub = BroadcastHub::new(2);
    let mut session = streaming(&mut hub);
    session.release(&mut hub);
    assert_eq!(session.state(), SessionState::Streaming);
    assert!(hub.is_attached(session.handle().unwrap()));
}

#[test]
fn closed_session_stays_closed() {
    let mut hub = BroadcastHub::new(2);
    let mut session = streaming(&mut hub);
    session.on_failure(Failure::Shutdown);
    session.release(&mut hub);
    assert!(!session.open(&mut hub));
    assert_eq!(session.state(), SessionState::Closed);
    assert_eq!(session.on_text(r#"{"type":"ping","timestamp":1}"#), None);
    assert!(session.next_outbound().is_none());
    assert_eq!(hub.subscriber_count(), 0);
}
