use video_sync::ws::handler::{
    handle_channel_event, handle_client_connect, handle_client_disconnect, handle_forward_result,
    handle_socket_event, ChannelEvent, SessionAction, SocketEvent,
};
use video_sync::ws::{ClientCountMessage, MediaMessage, User, WsMessage};

fn media(timeout: u64) -> MediaMessage {
    MediaMessage::new(
        "https://example.org/cat.gif".to_string(),
        "top".to_string(),
        "bottom".to_string(),
        User::new("alice".to_string()),
        timeout,
    )
}

#[test]
fn test_ws_connection() {
    // The first client to connect is told that one client is connected.
    let msg = handle_client_connect(1);
    assert_eq!(msg, WsMessage::ClientCount(ClientCountMessage::new(1)));
}

#[test]
fn connect_counts_every_receiver() {
    assert_eq!(handle_client_connect(5), WsMessage::ClientCount(ClientCountMessage::new(5)));
}

#[test]
fn disconnect_counts_one_less() {
    assert_eq!(handle_client_disconnect(1), WsMessage::ClientCount(ClientCountMessage::new(0)));
    assert_eq!(handle_client_disconnect(4), WsMessage::ClientCount(ClientCountMessage::new(3)));
}

#[test]
fn media_is_queued_for_its_timeout() {
    let step = handle_socket_event(SocketEvent::Message(WsMessage::Media(media(3000))));
    assert!(step.keep_open);
    match step.action {
        SessionAction::Enqueue { media: m, delay } => {
            assert_eq!(delay, std::time::Duration::from_millis(3000));
            assert_eq!(m, media(3000));
        }
        _ => panic!("expected the media to be queued"),
    }
}

#[test]
fn client_count_is_relayed() {
    let step =
        handle_socket_event(SocketEvent::Message(WsMessage::ClientCount(ClientCountMessage::new(9))));
    assert!(step.keep_open);
    match step.action {
        SessionAction::Relay(c) => assert_eq!(c.client_count(), 9),
        _ => panic!("expected a relay"),
    }
}

#[test]
fn close_announces_departure_and_ends() {
    let step = handle_socket_event(SocketEvent::Close);
    assert!(!step.keep_open);
    assert!(matches!(step.action, SessionAction::AnnounceDeparture));
}

#[test]
fn gone_socket_announces_departure_and_goes_on() {
    let step = handle_socket_event(SocketEvent::Gone);
    assert!(step.keep_open);
    assert!(matches!(step.action, SessionAction::AnnounceDeparture));
}

#[test]
fn other_frames_and_malformed_text_are_ignored() {
    for event in [SocketEvent::Malformed, SocketEvent::OtherFrame] {
        let step = handle_socket_event(event);
        assert!(step.keep_open);
        assert!(matches!(step.action, SessionAction::Idle));
    }
}

#[test]
fn channel_messages_are_forwarded() {
    let step = handle_channel_event(ChannelEvent::Received);
    assert!(step.keep_open);
    assert!(matches!(step.action, SessionAction::Forward));
    let step = handle_channel_event(ChannelEvent::Failed);
    assert!(step.keep_open);
    assert!(matches!(step.action, SessionAction::Idle));
}

#[test]
fn failed_forward_ends_the_session() {
    let step = handle_forward_result(false);
    assert!(!step.keep_open);
    assert!(matches!(step.action, SessionAction::AnnounceDeparture));
    let step = handle_forward_result(true);
    assert!(step.keep_open);
    assert!(matches!(step.action, SessionAction::Idle));
}
