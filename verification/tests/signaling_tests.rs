use pingo::signaling::{
    ConnectionState, PeerAddress, SignalingError, SignalingMessage, SignalingServer,
};

fn addr(ip: &str, port: u16) -> PeerAddress {
    PeerAddress { ip: ip.to_string(), port }
}

fn ended(from: &str) -> SignalingMessage {
    SignalingMessage::ScreenShareEnded {
        from: from.to_string(),
        to: "me".to_string(),
        session_id: "s".to_string(),
    }
}

fn ack(from: &str) -> SignalingMessage {
    SignalingMessage::DeliveryAck {
        from: from.to_string(),
        to: "me".to_string(),
        message_id: "m1".to_string(),
    }
}

#[test]
fn a_message_from_another_address_is_dropped_and_the_binding_stays() {
    let mut server = SignalingServer::new("me".to_string());
    server.register_peer("X", addr("10.0.0.5", 45678));
    let forwarded = server.accept_message(&ended("X"), addr("10.0.0.9", 45678));
    assert!(!forwarded);
    let bound = server.get_peer("X").unwrap();
    assert_eq!(bound.address.ip, "10.0.0.5");
    assert_eq!(bound.address.port, 45678);
}

#[test]
fn a_message_from_the_bound_address_is_forwarded() {
    let mut server = SignalingServer::new("me".to_string());
    server.register_peer("X", addr("10.0.0.5", 45678));
    assert!(server.accept_message(&ended("X"), addr("10.0.0.5", 45678)));
    assert!(!server.accept_message(&ended("X"), addr("10.0.0.5", 45679)));
}

#[test]
fn the_first_message_of_a_peer_binds_it() {
    let mut server = SignalingServer::new("me".to_string());
    assert!(server.get_peer("Y").is_none());
    assert!(server.accept_message(&ended("Y"), addr("10.0.0.7", 5000)));
    let bound = server.get_peer("Y").unwrap();
    assert_eq!(bound.peer_id, "Y");
    assert_eq!(bound.address.ip, "10.0.0.7");
    assert_eq!(bound.address.port, 5000);
    assert_eq!(bound.state, ConnectionState::Disconnected);
    assert_eq!(bound.session_id, None);
    assert!(!server.accept_message(&ended("Y"), addr("10.0.0.8", 5000)));
    assert_eq!(server.get_peer("Y").unwrap().address.ip, "10.0.0.7");
}

#[test]
fn every_kind_of_message_is_checked() {
    let mut server = SignalingServer::new("me".to_string());
    server.register_peer("X", addr("10.0.0.5", 45678));
    assert!(!server.accept_message(&ack("X"), addr("10.0.0.9", 45678)));
    let pong = SignalingMessage::Pong { from: "X".to_string(), timestamp: 1 };
    assert!(!server.accept_message(&pong, addr("10.0.0.9", 45678)));
    assert!(server.accept_message(&pong, addr("10.0.0.5", 45678)));
}

#[test]
fn own_messages_are_forwarded_and_bind_nothing() {
    let mut server = SignalingServer::new("me".to_string());
    assert!(server.accept_message(&ended("me"), addr("10.0.0.1", 1)));
    assert!(server.get_peer("me").is_none());
}

#[test]
fn register_peer_replaces_a_binding_and_resets_the_state() {
    let mut server = SignalingServer::new("me".to_string());
    server.register_peer("X", addr("10.0.0.5", 45678));
    server.update_peer_state("X", ConnectionState::Connected);
    assert_eq!(server.get_peer("X").unwrap().state, ConnectionState::Connected);
    server.register_peer("X", addr("10.0.0.6", 1000));
    let bound = server.get_peer("X").unwrap();
    assert_eq!(bound.address.ip, "10.0.0.6");
    assert_eq!(bound.address.port, 1000);
    assert_eq!(bound.state, ConnectionState::Disconnected);
}

#[test]
fn send_needs_a_socket_and_a_binding() {
    let mut server = SignalingServer::new("me".to_string());
    server.register_peer("X", addr("10.0.0.5", 45678));
    assert_eq!(
        server.send_message("X", &ended("me")).err(),
        Some(SignalingError::SocketNotInitialized)
    );
    assert_eq!(
        server.send_to_address(addr("1.2.3.4", 5), &ended("me")).err(),
        Some(SignalingError::SocketNotInitialized)
    );
    assert_eq!(server.start(45678), 45678);
    assert!(server.is_running());
    let dest = server.send_message("X", &ended("me")).unwrap();
    assert_eq!((dest.ip.as_str(), dest.port), ("10.0.0.5", 45678));
    assert_eq!(server.send_message("Z", &ended("me")).err(), Some(SignalingError::PeerNotFound));
    let dest = server.send_to_address(addr("1.2.3.4", 5), &ended("me")).unwrap();
    assert_eq!((dest.ip.as_str(), dest.port), ("1.2.3.4", 5));
    server.stop();
    assert!(!server.is_running());
    assert!(server.send_message("X", &ended("me")).is_ok());
}

#[test]
fn connected_peers_are_those_whose_state_says_so() {
    let mut server = SignalingServer::new("me".to_string());
    server.register_peer("a", addr("10.0.0.1", 1));
    server.register_peer("b", addr("10.0.0.2", 2));
    server.register_peer("c", addr("10.0.0.3", 3));
    assert!(server.get_connected_peers().is_empty());
    server.update_peer_state("a", ConnectionState::Connected);
    server.update_peer_state("b", ConnectionState::Connecting);
    server.update_peer_state("c", ConnectionState::Connected);
    server.update_peer_state("zzz", ConnectionState::Connected);
    let mut connected = server.get_connected_peers();
    connected.sort();
    assert_eq!(connected, vec!["a".to_string(), "c".to_string()]);
    server.update_peer_state("a", ConnectionState::Failed);
    assert_eq!(server.get_connected_peers(), vec!["c".to_string()]);
}

#[test]
fn sender_recipient_and_tag_are_read_from_the_message() {
    let chat = SignalingMessage::ChatMessage {
        from: "a".into(),
        to: "b".into(),
        id: "m".into(),
        content: "hi".into(),
        message_type: "text".into(),
        sender_name: "Ana".into(),
        timestamp: "t".into(),
    };
    assert_eq!(chat.from_of(), "a");
    assert_eq!(chat.to_of().map(|s| s.as_str()), Some("b"));
    assert_eq!(chat.tag_of(), "ChatMessage");
    let ping = SignalingMessage::Ping { from: "a".into(), timestamp: 9 };
    assert_eq!(ping.from_of(), "a");
    assert_eq!(ping.to_of(), None);
    assert_eq!(ping.tag_of(), "Ping");
    let chat = SignalingMessage::MeetingChat {
        from: "h".into(),
        to: "g".into(),
        meeting_id: "m".into(),
        chat: serde_json::Value::String("hello".into()),
    };
    assert_eq!(chat.from_of(), "h");
    assert_eq!(chat.tag_of(), "MeetingChat");
    assert_eq!(ended("q").tag_of(), "ScreenShareEnded");
}

#[test]
fn addresses_compare_by_text_and_port() {
    assert!(addr("10.0.0.5", 1).same_as(&addr("10.0.0.5", 1)));
    assert!(!addr("10.0.0.5", 1).same_as(&addr("10.0.0.5", 2)));
    assert!(!addr("10.0.0.5", 1).same_as(&addr("10.0.0.6", 1)));
}

#[test]
fn signaling_errors_have_messages() {
    assert_eq!(SignalingError::PeerNotFound.message(), "Peer not found");
    assert_eq!(SignalingError::SocketNotInitialized.message(), "Socket not initialized");
}

#[test]
fn a_copy_of_a_message_carries_the_same_payload() {
    let chat = SignalingMessage::MeetingChat {
        from: "h".into(),
        to: "g".into(),
        meeting_id: "m".into(),
        chat: serde_json::Value::Array(vec![
            serde_json::Value::String("hello".into()),
            serde_json::Value::Bool(true),
        ]),
    };
    match (chat.clone(), chat) {
        (
            SignalingMessage::MeetingChat { from, chat: copied, .. },
            SignalingMessage::MeetingChat { chat: kept, .. },
        ) => {
            assert_eq!(from, "h");
            assert_eq!(copied, kept);
            assert_eq!(copied[0], "hello");
        }
        other => panic!("unexpected {:?}", other),
    }
}
