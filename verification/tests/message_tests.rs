use video_sync::ws::{ClientCountMessage, MediaMessage, User, WsMessage};

#[test]
fn client_count_message_keeps_its_count() {
    assert_eq!(ClientCountMessage::new(0).client_count(), 0);
    assert_eq!(ClientCountMessage::new(u64::MAX).client_count(), u64::MAX);
    assert_eq!(ClientCountMessage::new(3), ClientCountMessage::new(3));
    assert_ne!(ClientCountMessage::new(3), ClientCountMessage::new(4));
}

#[test]
fn media_message_fields() {
    let m = MediaMessage::new(
        "u".to_string(),
        "t".to_string(),
        "b".to_string(),
        User::new("bob".to_string()),
        1500,
    );
    assert_eq!(m.media_url(), "u");
    assert_eq!(m.top_message(), "t");
    assert_eq!(m.bottom_message(), "b");
    assert_eq!(m.sender().username(), "bob");
    assert_eq!(m.timeout(), 1500);
    assert_eq!(WsMessage::Media(m.clone()), WsMessage::Media(m));
}
