use pingo::commands::{
    folder_char_or_underscore, pending_port, add_group_member, auto_download_file, check_file_downloaded, register_local_avatar, avatar_file_id, avatar_file_name, create_group, create_user, delete_user,
    delivery_ack, dev_log, download_and_cache_avatar, download_progress, ext_from_filename,
    file_id_of_url, find_group, get_local_file_url, get_storage_stats, group_fanout,
    group_invitation, handle_discovery_event, handle_signaling_message, incoming_message,
    init_app, inline_mime_of, is_local_server_url, load_device_id, local_file_url,
    make_avatar_placeholder, make_peer_file_url, member_added_notices, member_ids_of,
    member_names_of, read_file_as_data_url, recipients, relay_chat_message, relay_destination,
    remove_group_member, resolve_pending_avatar, resolve_profile_avatar, sanitize_folder_name,
    save_avatar, save_note, send_group_message, send_message, shared_file_name,
    store_shared_file, strip_file_scheme, type_folder, AppEvent, CommandError, CreateGroupInput,
    CreateUserInput, DevLog, DownloadStage, Effect, RelayError, SaveNoteInput, SendGroupMsgInput,
    SendMessageInput,
};
use pingo::db::{Group, GroupMember, User};
use pingo::discovery::{DiscoveryEvent, DiscoveryManager, DiscoveryPacket, MessageType, PeerInfo};
use pingo::signaling::{PeerAddress, SignalingMessage, SignalingServer};

fn addr(ip: &str, port: u16) -> PeerAddress {
    PeerAddress { ip: ip.to_string(), port }
}

fn chat(from: &str, id: &str, content: &str) -> SignalingMessage {
    SignalingMessage::ChatMessage {
        from: from.into(),
        to: "me".into(),
        id: id.into(),
        content: content.into(),
        message_type: "text".into(),
        sender_name: "Ana".into(),
        timestamp: "2024-05-01T10:00:00+00:00".into(),
    }
}

fn member(group: &str, user: &str, name: &str) -> GroupMember {
    GroupMember {
        group_id: group.into(),
        user_id: user.into(),
        username: name.into(),
        role: "member".into(),
        joined_at: "t".into(),
    }
}

fn peer_info(id: &str, ip: &str, port: u16) -> PeerInfo {
    PeerInfo {
        device_id: id.into(),
        username: format!("user-{}", id),
        ip_address: ip.into(),
        port,
        public_key: format!("key-{}", id),
        is_online: true,
    }
}

fn existing_user() -> User {
    User {
        id: "me".into(),
        username: "Old".into(),
        device_id: "me".into(),
        public_key: Some("old-key".into()),
        avatar_path: Some("avatar".into()),
        bio: Some("bio".into()),
        designation: None,
        last_seen: Some("before".into()),
        is_online: false,
        created_at: "created".into(),
    }
}

#[test]
fn a_chat_message_is_stored_as_delivered_and_acknowledged() {
    let effects = handle_signaling_message(chat("a01", "m1", "hi"), "me", &None, &None, "now");
    assert_eq!(effects.len(), 4);
    assert!(matches!(&effects[0],
        Effect::UpsertPeer { device_id, username, public_key }
            if device_id == "a01" && username == "Ana" && public_key.is_none()));
    match &effects[1] {
        Effect::StoreMessage { message } => {
            assert_eq!(message.id, "m1");
            assert_eq!(message.sender_id, "a01");
            assert_eq!(message.receiver_id, "me");
            assert_eq!(message.content, "hi");
            assert_eq!(message.message_type, "text");
            assert_eq!(message.file_path, None);
            assert!(!message.is_read);
            assert!(message.is_delivered);
            assert_eq!(message.created_at, "2024-05-01T10:00:00+00:00");
        }
        other => panic!("unexpected {:?}", other),
    }
    assert!(matches!(&effects[2],
        Effect::Emit { event: AppEvent::ChatMessageReceived { message } } if message.id == "m1"));
    match &effects[3] {
        Effect::Send { to, message: SignalingMessage::DeliveryAck { from, to: ack_to, message_id } } => {
            assert_eq!(to, "a01");
            assert_eq!(from, "me");
            assert_eq!(ack_to, "a01");
            assert_eq!(message_id, "m1");
        }
        other => panic!("unexpected {:?}", other),
    }
}

#[test]
fn a_chat_message_from_a_bound_peer_reports_the_address() {
    let effects = handle_signaling_message(
        chat("X", "m2", "hi"),
        "me",
        &Some(addr("10.0.0.5", 18080)),
        &Some("http://already/resolved".to_string()),
        "now",
    );
    assert_eq!(effects.len(), 5);
    assert!(matches!(&effects[1],
        Effect::Emit { event: AppEvent::PeerAddressSeen { device_id, username, ip_address, port } }
            if device_id == "X" && username == "Ana" && ip_address == "10.0.0.5" && *port == 18080));
    assert!(matches!(&effects[2], Effect::StoreMessage { .. }));
}

#[test]
fn an_avatar_reference_is_resolved_when_the_peer_is_heard() {
    // A profile update from a peer without known address leaves a placeholder.
    let update = SignalingMessage::ProfileUpdate {
        from: "X".into(),
        to: "me".into(),
        username: "Xavier".into(),
        avatar_url: None,
        avatar_file_id: Some("f1".into()),
        avatar_file_port: Some(18080),
        bio: Some("b".into()),
        designation: None,
    };
    let effects = handle_signaling_message(update, "me", &None, &None, "now");
    assert_eq!(effects.len(), 3);
    assert!(matches!(&effects[0],
        Effect::UpsertPeer { device_id, username, public_key }
            if device_id == "X" && username == "Xavier" && public_key.is_none()));
    let stored = match &effects[1] {
        Effect::SetAvatar { device_id, avatar } => {
            assert_eq!(device_id, "X");
            avatar.clone()
        }
        other => panic!("unexpected {:?}", other),
    };
    assert_eq!(stored, "filemeta:f1:18080");
    match &effects[2] {
        Effect::Emit {
            event: AppEvent::ProfileUpdated { from, to, username, avatar_url, bio, designation },
        } => {
            assert_eq!(from, "X");
            assert_eq!(to, "me");
            assert_eq!(username, "Xavier");
            assert_eq!(avatar_url.as_deref(), Some("filemeta:f1:18080"));
            assert_eq!(bio.as_deref(), Some("b"));
            assert_eq!(*designation, None);
        }
        other => panic!("unexpected {:?}", other),
    }

    // The next chat message from the peer, heard from 10.0.0.5:18080, resolves it.
    let effects = handle_signaling_message(
        chat("X", "m3", "hello"),
        "me",
        &Some(addr("10.0.0.5", 18080)),
        &Some(stored),
        "now",
    );
    assert_eq!(effects.len(), 7);
    assert!(matches!(&effects[1],
        Effect::SetAvatar { device_id, avatar }
            if device_id == "X" && avatar == "http://10.0.0.5:18080/file/f1"));
    assert!(matches!(&effects[2],
        Effect::Emit { event: AppEvent::PeerAvatarResolved { device_id, username, avatar_path } }
            if device_id == "X" && username == "Ana" && avatar_path == "http://10.0.0.5:18080/file/f1"));
    assert!(matches!(&effects[3], Effect::Emit { event: AppEvent::PeerAddressSeen { .. } }));
    assert!(matches!(&effects[4], Effect::StoreMessage { .. }));
    assert!(matches!(&effects[5], Effect::Emit { event: AppEvent::ChatMessageReceived { .. } }));
    assert!(matches!(&effects[6], Effect::Send { .. }));
}

#[test]
fn pending_avatars_resolve_with_the_port_of_the_reference_unless_it_is_useless() {
    assert_eq!(
        resolve_pending_avatar("filemeta:f1:18080", "10.0.0.5", 45678).as_deref(),
        Some("http://10.0.0.5:18080/file/f1")
    );
    assert_eq!(
        resolve_pending_avatar("filemeta:f1:0", "10.0.0.5", 45678).as_deref(),
        Some("http://10.0.0.5:45678/file/f1")
    );
    assert_eq!(
        resolve_pending_avatar("filemeta:f1:junk", "10.0.0.5", 45678).as_deref(),
        Some("http://10.0.0.5:45678/file/f1")
    );
    assert_eq!(
        resolve_pending_avatar("filemeta:f1:99999", "10.0.0.5", 45678).as_deref(),
        Some("http://10.0.0.5:45678/file/f1")
    );
    assert_eq!(
        resolve_pending_avatar("filemeta:f1:80:extra", "10.0.0.5", 1).as_deref(),
        Some("http://10.0.0.5:80/file/f1")
    );
    for (written, port) in [("+80", 80u16), ("0080", 80), ("65535", 65535)] {
        assert_eq!(
            resolve_pending_avatar(&format!("filemeta:f1:{}", written), "10.0.0.5", 7),
            Some(format!("http://10.0.0.5:{}/file/f1", port))
        );
    }
    for written in ["", "+", "-1", " 80", "80 ", "8_0", "65536", "++1", "0x50"] {
        assert_eq!(
            resolve_pending_avatar(&format!("filemeta:f1:{}", written), "10.0.0.5", 7).as_deref(),
            Some("http://10.0.0.5:7/file/f1"),
            "{:?}",
            written
        );
    }
    assert_eq!(resolve_pending_avatar("filemeta:f1", "10.0.0.5", 1), None);
    assert_eq!(resolve_pending_avatar("http://x/file/f1", "10.0.0.5", 1), None);
    assert_eq!(resolve_pending_avatar("xfilemeta:f1:80", "10.0.0.5", 1), None);
    assert_eq!(resolve_pending_avatar("", "10.0.0.5", 1), None);
}

#[test]
fn profile_avatars_prefer_the_url_then_the_file_then_nothing() {
    let url = Some("http://u".to_string());
    let file = Some("f1".to_string());
    let bound = Some(addr("10.0.0.5", 45678));
    assert_eq!(resolve_profile_avatar(&url, &file, Some(1), &bound).as_deref(), Some("http://u"));
    assert_eq!(
        resolve_profile_avatar(&None, &file, Some(18080), &bound).as_deref(),
        Some("http://10.0.0.5:18080/file/f1")
    );
    assert_eq!(
        resolve_profile_avatar(&None, &file, None, &bound).as_deref(),
        Some("http://10.0.0.5:45678/file/f1")
    );
    assert_eq!(
        resolve_profile_avatar(&None, &file, Some(18080), &None).as_deref(),
        Some("filemeta:f1:18080")
    );
    assert_eq!(resolve_profile_avatar(&None, &file, None, &None).as_deref(), Some("filemeta:f1:0"));
    assert_eq!(resolve_profile_avatar(&None, &None, Some(1), &bound), None);
    assert_eq!(make_peer_file_url("1.2.3.4", 80, "x"), "http://1.2.3.4:80/file/x");
    assert_eq!(make_avatar_placeholder("x", 7), "filemeta:x:7");
}

#[test]
fn a_profile_update_without_avatar_sets_none() {
    let update = SignalingMessage::ProfileUpdate {
        from: "X".into(),
        to: "whoever".into(),
        username: "Xavier".into(),
        avatar_url: None,
        avatar_file_id: None,
        avatar_file_port: None,
        bio: None,
        designation: Some("Dev".into()),
    };
    let effects = handle_signaling_message(update, "me", &Some(addr("1.1.1.1", 1)), &None, "now");
    assert_eq!(effects.len(), 2);
    assert!(matches!(&effects[1],
        Effect::Emit { event: AppEvent::ProfileUpdated { avatar_url, designation, to, .. } }
            if avatar_url.is_none() && designation.as_deref() == Some("Dev") && to == "me"));
}

#[test]
fn a_shared_group_is_mirrored_with_its_members() {
    let created = SignalingMessage::GroupCreated {
        from: "host".into(),
        to: "me".into(),
        id: "g1".into(),
        name: "Team".into(),
        member_ids: vec!["host".into(), "me".into(), "p2".into()],
        member_names: vec!["Host".into(), "Me".into()],
        created_at: "c".into(),
    };
    let effects = handle_signaling_message(created, "me", &None, &None, "now");
    assert_eq!(effects.len(), 5);
    assert!(matches!(&effects[0],
        Effect::StoreGroup { group }
            if group.id == "g1" && group.name == "Team" && group.created_by == "host"
                && group.avatar_color.is_none() && group.created_at == "c"));
    let rows: Vec<(String, String, String, String)> = effects[1..4]
        .iter()
        .map(|e| match e {
            Effect::AddGroupMember { member } => {
                assert_eq!(member.group_id, "g1");
                assert_eq!(member.joined_at, "now");
                (member.user_id.clone(), member.username.clone(), member.role.clone(), member.group_id.clone())
            }
            other => panic!("unexpected {:?}", other),
        })
        .collect();
    assert_eq!(rows[0].0, "host");
    assert_eq!(rows[0].1, "Host");
    assert_eq!(rows[0].2, "admin");
    assert_eq!((rows[1].0.as_str(), rows[1].1.as_str(), rows[1].2.as_str()), ("me", "Me", "member"));
    assert_eq!((rows[2].0.as_str(), rows[2].1.as_str(), rows[2].2.as_str()), ("p2", "", "member"));
    assert!(matches!(&effects[4],
        Effect::Emit { event: AppEvent::GroupCreated { group } } if group.id == "g1"));
}

#[test]
fn a_group_message_is_stored_and_shown() {
    let message = SignalingMessage::GroupChatMessage {
        from: "p1".into(),
        to: "me".into(),
        group_id: "g1".into(),
        id: "gm1".into(),
        content: "hi all".into(),
        message_type: "text".into(),
        sender_name: "Pia".into(),
        timestamp: "t".into(),
    };
    let effects = handle_signaling_message(message, "me", &None, &None, "now");
    assert_eq!(effects.len(), 3);
    assert!(matches!(&effects[0],
        Effect::UpsertPeer { device_id, username, .. } if device_id == "p1" && username == "Pia"));
    assert!(matches!(&effects[1],
        Effect::StoreGroupMessage { message }
            if message.id == "gm1" && message.group_id == "g1" && message.sender_id == "p1"
                && message.sender_name == "Pia" && message.content == "hi all"
                && message.message_type == "text" && message.created_at == "t"));
    assert!(matches!(&effects[2],
        Effect::Emit { event: AppEvent::GroupMessageReceived { message } } if message.id == "gm1"));
}

#[test]
fn a_meeting_chat_message_is_shown_and_never_stored() {
    let message = SignalingMessage::MeetingChatMessage {
        from: "p1".into(),
        to: "me".into(),
        session_id: "s1".into(),
        id: "c1".into(),
        content: "psst".into(),
        sender_name: "Pia".into(),
        timestamp: "t".into(),
    };
    let effects = handle_signaling_message(message, "me", &None, &None, "now");
    assert_eq!(effects.len(), 1);
    match &effects[0] {
        Effect::Emit { event } => {
            assert_eq!(event.channel_name(), "meeting-chat-received");
            assert!(matches!(event,
                AppEvent::MeetingChatReceived { from, session_id, id, content, sender_name, timestamp }
                    if from == "p1" && session_id == "s1" && id == "c1" && content == "psst"
                        && sender_name == "Pia" && timestamp == "t"));
        }
        other => panic!("unexpected {:?}", other),
    }
}

#[test]
fn membership_changes_are_mirrored() {
    let added = SignalingMessage::GroupMemberAdded {
        from: "host".into(),
        to: "me".into(),
        group_id: "g1".into(),
        user_id: "p3".into(),
        username: "Per".into(),
    };
    let effects = handle_signaling_message(added, "me", &None, &None, "now");
    assert_eq!(effects.len(), 2);
    assert!(matches!(&effects[0],
        Effect::AddGroupMember { member }
            if member.group_id == "g1" && member.user_id == "p3" && member.username == "Per"
                && member.role == "member" && member.joined_at == "now"));
    assert!(matches!(&effects[1],
        Effect::Emit { event: AppEvent::GroupMemberAdded { from, group_id, user_id, username } }
            if from == "host" && group_id == "g1" && user_id == "p3" && username == "Per"));

    let removed = SignalingMessage::GroupMemberRemoved {
        from: "host".into(),
        to: "me".into(),
        group_id: "g1".into(),
        user_id: "p3".into(),
    };
    let effects = handle_signaling_message(removed, "me", &None, &None, "now");
    assert_eq!(effects.len(), 2);
    assert!(matches!(&effects[0],
        Effect::RemoveGroupMember { group_id, user_id } if group_id == "g1" && user_id == "p3"));
    assert!(matches!(&effects[1],
        Effect::Emit { event: AppEvent::GroupMemberRemoved { from, group_id, user_id } }
            if from == "host" && group_id == "g1" && user_id == "p3"));
}

#[test]
fn any_other_message_goes_to_the_user_interface_as_it_came() {
    let offer = SignalingMessage::Offer {
        from: "p".into(),
        to: "me".into(),
        sdp: "v=0".into(),
        session_id: "s".into(),
    };
    let effects = handle_signaling_message(offer, "me", &None, &None, "now");
    assert_eq!(effects.len(), 1);
    match &effects[0] {
        Effect::Emit { event } => {
            assert_eq!(event.channel_name(), "signaling-message");
            assert!(matches!(event,
                AppEvent::Signaling { message: SignalingMessage::Offer { from, sdp, .. } }
                    if from == "p" && sdp == "v=0"));
        }
        other => panic!("unexpected {:?}", other),
    }
}

#[test]
fn a_discovered_peer_is_stored_and_bound() {
    let mut signaling = SignalingServer::new("me".to_string());
    let effects = handle_discovery_event(
        &mut signaling,
        DiscoveryEvent::PeerDiscovered { peer: peer_info("b02", "192.168.1.7", 45678) },
    );
    assert_eq!(effects.len(), 2);
    assert!(matches!(&effects[0],
        Effect::UpsertPeer { device_id, username, public_key }
            if device_id == "b02" && username == "user-b02" && public_key.as_deref() == Some("key-b02")));
    match &effects[1] {
        Effect::Emit { event } => {
            assert_eq!(event.channel_name(), "peer-discovered");
            assert!(matches!(event, AppEvent::PeerDiscovered { peer } if peer.ip_address == "192.168.1.7"));
        }
        other => panic!("unexpected {:?}", other),
    }
    let bound = signaling.get_peer("b02").unwrap();
    assert_eq!((bound.address.ip.as_str(), bound.address.port), ("192.168.1.7", 45678));

    let effects = handle_discovery_event(
        &mut signaling,
        DiscoveryEvent::PeerUpdated { peer: peer_info("b02", "192.168.1.8", 45000) },
    );
    assert!(matches!(&effects[1], Effect::Emit { event: AppEvent::PeerUpdated { .. } }));
    let bound = signaling.get_peer("b02").unwrap();
    assert_eq!((bound.address.ip.as_str(), bound.address.port), ("192.168.1.8", 45000));

    let effects =
        handle_discovery_event(&mut signaling, DiscoveryEvent::PeerLost { device_id: "b02".into() });
    assert_eq!(effects.len(), 1);
    assert!(matches!(&effects[0],
        Effect::Emit { event: AppEvent::PeerLost { device_id } } if device_id == "b02"));
    assert!(signaling.get_peer("b02").is_some());
}

#[test]
fn relay_falls_back_on_discovery_once() {
    let mut signaling = SignalingServer::new("me".to_string());
    let mut discovery = DiscoveryManager::new();
    discovery.start("me".into(), "Me".into(), 1, "k".into());
    discovery.handle_packet(
        DiscoveryPacket { msg_type: MessageType::Hello, peer: peer_info("P1", "0.0.0.0", 45678) },
        "10.0.0.21",
        0,
    );
    let message = chat("me", "m", "hi all");
    assert_eq!(
        relay_destination(&mut signaling, &discovery, "P1", &message).err(),
        Some(RelayError::SocketNotInitialized)
    );
    signaling.start(45678);
    assert!(signaling.get_peer("P1").is_none());
    let destination = relay_destination(&mut signaling, &discovery, "P1", &message).unwrap();
    assert_eq!((destination.ip.as_str(), destination.port), ("10.0.0.21", 45678));
    let bound = signaling.get_peer("P1").unwrap();
    assert_eq!((bound.address.ip.as_str(), bound.address.port), ("10.0.0.21", 45678));
    assert_eq!(
        relay_destination(&mut signaling, &discovery, "P9", &message).err(),
        Some(RelayError::PeerNotFound)
    );
    assert!(signaling.get_peer("P9").is_none());

    signaling.register_peer("P2", addr("10.0.0.30", 5));
    let destination = relay_destination(&mut signaling, &discovery, "P2", &message).unwrap();
    assert_eq!((destination.ip.as_str(), destination.port), ("10.0.0.30", 5));
}

#[test]
fn relayed_chat_messages_default_to_text() {
    let m = relay_chat_message("me", "p", "m1".into(), "hi".into(), None, "Me".into(), "t".into());
    assert!(matches!(m,
        SignalingMessage::ChatMessage { from, to, id, content, message_type, sender_name, timestamp }
            if from == "me" && to == "p" && id == "m1" && content == "hi" && message_type == "text"
                && sender_name == "Me" && timestamp == "t"));
    let m = relay_chat_message("me", "p", "m1".into(), "x".into(), Some("image".into()), "Me".into(), "t".into());
    assert!(matches!(m, SignalingMessage::ChatMessage { message_type, .. } if message_type == "image"));
}

#[test]
fn a_new_group_has_its_owner_as_admin_and_is_shared_with_the_others() {
    let input = CreateGroupInput {
        name: "G".into(),
        member_ids: vec!["P1".into(), "me".into(), "P2".into()],
        member_names: vec!["One".into(), "Me".into()],
    };
    let plan = create_group("me", "Me", &input, "gid".to_string(), "now");
    assert_eq!(plan.group.id, "gid");
    assert_eq!(plan.group.name, "G");
    assert_eq!(plan.group.created_by, "me");
    assert_eq!(plan.group.avatar_color.as_deref(), Some("#4f46e5"));
    assert_eq!(plan.group.created_at, "now");
    let rows: Vec<(&str, &str, &str)> = plan
        .members
        .iter()
        .map(|m| (m.user_id.as_str(), m.username.as_str(), m.role.as_str()))
        .collect();
    assert_eq!(rows, vec![("me", "Me", "admin"), ("P1", "One", "member"), ("me", "Me", "member")]);
    assert!(plan.members.iter().all(|m| m.group_id == "gid" && m.joined_at == "now"));
    assert_eq!(plan.notices.len(), 2);
    for (notice, target) in plan.notices.iter().zip(["P1", "P2"]) {
        match notice {
            SignalingMessage::GroupCreated { from, to, id, name, member_ids, member_names, created_at } => {
                assert_eq!(from, "me");
                assert_eq!(to, target);
                assert_eq!(id, "gid");
                assert_eq!(name, "G");
                assert_eq!(member_ids, &vec!["me", "P1", "me", "P2"]);
                assert_eq!(member_names, &vec!["Me", "One", "Me"]);
                assert_eq!(created_at, "now");
            }
            other => panic!("unexpected {:?}", other),
        }
    }
}

#[test]
fn a_group_message_goes_to_every_member_but_the_sender() {
    let input = SendGroupMsgInput { group_id: "G".into(), content: "hi all".into(), message_type: None };
    let stored = send_group_message("me", "Me".into(), input, "gm1".into(), "t".into());
    assert_eq!(stored.sender_id, "me");
    assert_eq!(stored.message_type, "text");
    assert_eq!(stored.content, "hi all");
    let members = vec![member("G", "me", "Me"), member("G", "P1", "One"), member("G", "P2", "Two")];
    let notices = group_fanout("me", &stored, &members);
    assert_eq!(notices.len(), 2);
    for (notice, target) in notices.iter().zip(["P1", "P2"]) {
        assert!(matches!(notice,
            SignalingMessage::GroupChatMessage { from, to, group_id, id, content, message_type, sender_name, timestamp }
                if from == "me" && to == target && group_id == "G" && id == "gm1" && content == "hi all"
                    && message_type == "text" && sender_name == "Me" && timestamp == "t"));
    }
    assert!(group_fanout("me", &stored, &vec![member("G", "me", "Me")]).is_empty());
}

#[test]
fn adding_a_member_invites_it_and_tells_the_others() {
    let row = add_group_member("G", "P3", "Three", "now");
    assert_eq!((row.group_id.as_str(), row.user_id.as_str(), row.role.as_str()), ("G", "P3", "member"));
    assert_eq!(row.joined_at, "now");
    let members = vec![
        member("G", "me", "Me"),
        member("G", "P1", "One"),
        member("G", "P3", "Three"),
        member("G", "P2", "Two"),
    ];
    let group = Group {
        id: "G".into(),
        name: "Team".into(),
        created_by: "me".into(),
        avatar_color: None,
        created_at: "c".into(),
    };
    let ids = member_ids_of(&members);
    let names = member_names_of(&members);
    assert_eq!(ids, vec!["me", "P1", "P3", "P2"]);
    assert_eq!(names, vec!["Me", "One", "Three", "Two"]);
    let invitation = group_invitation("me", "P3", &group, &ids, &names);
    assert!(matches!(invitation,
        SignalingMessage::GroupCreated { from, to, id, name, member_ids, member_names, created_at }
            if from == "me" && to == "P3" && id == "G" && name == "Team" && member_ids == ids
                && member_names == names && created_at == "c"));
    let notices = member_added_notices("me", "G", "P3", "Three", &members);
    assert_eq!(notices.len(), 2);
    for (notice, target) in notices.iter().zip(["P1", "P2"]) {
        assert!(matches!(notice,
            SignalingMessage::GroupMemberAdded { from, to, group_id, user_id, username }
                if from == "me" && to == target && group_id == "G" && user_id == "P3" && username == "Three"));
    }
    assert_eq!(find_group(&vec![group], "G"), Some(0));
    assert_eq!(find_group(&Vec::new(), "G"), None);
}

#[test]
fn removing_a_member_tells_those_who_stay() {
    let before = vec![member("G", "me", "Me"), member("G", "P1", "One"), member("G", "P2", "Two")];
    let notices = remove_group_member("me", "G", "P1", &before);
    assert_eq!(notices.len(), 1);
    assert!(matches!(&notices[0],
        SignalingMessage::GroupMemberRemoved { from, to, group_id, user_id }
            if from == "me" && to == "P2" && group_id == "G" && user_id == "P1"));
    assert_eq!(
        recipients(&vec!["a".into(), "b".into(), "a".into(), "c".into()], "a", "c"),
        vec!["b"]
    );
}

#[test]
fn the_local_user_cannot_be_deleted() {
    assert_eq!(delete_user("me", "me").err(), Some(CommandError::CannotDeleteLocalUser));
    let event = delete_user("me", "other").unwrap();
    assert_eq!(event.channel_name(), "user-deleted");
    assert!(matches!(event, AppEvent::UserDeleted { user_id } if user_id == "other"));
    assert_eq!(CommandError::CannotDeleteLocalUser.message(), "Cannot delete the local user");
}

#[test]
fn the_device_identifier_is_loaded_or_made() {
    assert_eq!(load_device_id(Some("abc".into())), ("abc".to_string(), false));
    let (fresh, store) = load_device_id(Some(String::new()));
    assert!(store);
    assert_eq!(fresh.len(), 32);
    let (fresh, store) = load_device_id(None);
    assert!(store);
    assert_eq!(fresh.len(), 32);
}

#[test]
fn the_log_file_takes_one_line_per_second() {
    let mut log = DevLog { last_write: 0 };
    assert_eq!(dev_log(&mut log, 100, "started"), ("[100] [Pingo] started".to_string(), true));
    assert_eq!(log.last_write, 100);
    assert_eq!(dev_log(&mut log, 100, "again"), ("[100] [Pingo] again".to_string(), false));
    assert_eq!(dev_log(&mut log, 99, "early").1, false);
    assert_eq!(log.last_write, 100);
    assert_eq!(dev_log(&mut log, 101, "later").1, true);
    assert_eq!(log.last_write, 101);
    let mut fresh = DevLog { last_write: 0 };
    assert_eq!(dev_log(&mut fresh, 0, "zero").1, false);
}

#[test]
fn start_up_makes_or_refreshes_the_local_user() {
    let made = init_app(None, "me", Some("host".into()), "pk", "now");
    assert_eq!(made.id, "me");
    assert_eq!(made.device_id, "me");
    assert_eq!(made.username, "host");
    assert_eq!(made.public_key.as_deref(), Some("pk"));
    assert_eq!(made.avatar_path, None);
    assert_eq!(made.bio.as_deref(), Some(""));
    assert_eq!(made.designation.as_deref(), Some(""));
    assert_eq!(made.last_seen.as_deref(), Some("now"));
    assert!(made.is_online);
    assert_eq!(made.created_at, "now");
    assert_eq!(init_app(None, "me", None, "pk", "now").username, "Pingo User");

    let kept = init_app(Some(existing_user()), "me", Some("host".into()), "pk", "now");
    assert_eq!(kept.username, "Old");
    assert_eq!(kept.public_key.as_deref(), Some("pk"));
    assert_eq!(kept.avatar_path.as_deref(), Some("avatar"));
    assert_eq!(kept.created_at, "created");
    assert_eq!(kept.last_seen.as_deref(), Some("now"));
    assert!(kept.is_online);
}

#[test]
fn a_profile_change_keeps_what_is_not_given() {
    let input = CreateUserInput {
        username: "New".into(),
        avatar_path: None,
        bio: Some("new bio".into()),
        designation: None,
    };
    let user = create_user(Some(existing_user()), "me", Some("pk".into()), input, "now");
    assert_eq!(user.username, "New");
    assert_eq!(user.avatar_path.as_deref(), Some("avatar"));
    assert_eq!(user.bio.as_deref(), Some("new bio"));
    assert_eq!(user.designation, None);
    assert_eq!(user.public_key.as_deref(), Some("pk"));
    assert_eq!(user.created_at, "created");
    assert_eq!(user.last_seen.as_deref(), Some("now"));
    assert!(user.is_online);
    let input = CreateUserInput { username: "N".into(), avatar_path: None, bio: None, designation: None };
    let user = create_user(None, "me", None, input, "now");
    assert_eq!(user.created_at, "now");
    assert_eq!(user.avatar_path, None);
    assert_eq!(user.public_key, None);
    let changed = save_avatar(existing_user(), "data:image/png;base64,AA==");
    assert_eq!(changed.avatar_path.as_deref(), Some("data:image/png;base64,AA=="));
    assert_eq!(changed.username, "Old");
}

#[test]
fn outgoing_rows_start_unread_and_undelivered() {
    let input = SendMessageInput {
        receiver_id: "p".into(),
        content: "hi".into(),
        message_type: None,
        file_path: Some("/f".into()),
    };
    let m = send_message("me", input, "id1".into(), "t".into());
    assert_eq!(m.id, "id1");
    assert_eq!(m.sender_id, "me");
    assert_eq!(m.receiver_id, "p");
    assert_eq!(m.message_type, "text");
    assert_eq!(m.file_path.as_deref(), Some("/f"));
    assert!(!m.is_read);
    assert!(!m.is_delivered);
    let arrived = incoming_message("me", "p", "id2", "yo", "image", "t2");
    assert!(arrived.is_delivered);
    assert!(!arrived.is_read);
    assert_eq!(arrived.receiver_id, "me");
    assert_eq!(arrived.message_type, "image");
    assert!(matches!(delivery_ack("me", "p", "id2"),
        SignalingMessage::DeliveryAck { from, to, message_id } if from == "me" && to == "p" && message_id == "id2"));
}

#[test]
fn notes_get_their_defaults() {
    let bare = SaveNoteInput {
        id: "n".into(),
        title: "T".into(),
        content: None,
        color: None,
        pinned: None,
        category: None,
        created_at: None,
    };
    let note = save_note(bare, "now");
    assert_eq!(note.content, "");
    assert_eq!(note.color, "#fef3c7");
    assert!(!note.pinned);
    assert_eq!(note.created_at, "now");
    assert_eq!(note.updated_at, "now");
    let full = SaveNoteInput {
        id: "n".into(),
        title: "T".into(),
        content: Some("c".into()),
        color: Some("#000".into()),
        pinned: Some(true),
        category: Some("work".into()),
        created_at: Some("then".into()),
    };
    let note = save_note(full, "now");
    assert_eq!(note.content, "c");
    assert_eq!(note.color, "#000");
    assert!(note.pinned);
    assert_eq!(note.category.as_deref(), Some("work"));
    assert_eq!(note.created_at, "then");
    assert_eq!(note.updated_at, "now");
}

#[test]
fn storage_sizes_add_up() {
    let stats = get_storage_stats("/db".into(), 10, "/shared".into(), 20, "/down".into(), 30);
    assert_eq!(stats.total_size, 60);
    assert_eq!(stats.db_path, "/db");
    assert_eq!(stats.shared_files_size, 20);
    assert_eq!(stats.downloads_path, "/down");
}

#[test]
fn folder_names_keep_only_harmless_characters() {
    assert_eq!(sanitize_folder_name("Ana Maria"), "Ana Maria");
    assert_eq!(sanitize_folder_name("  a/b\\c:d  "), "a_b_c_d");
    assert_eq!(sanitize_folder_name("Zoë_1-2.x"), "Zoë_1-2.x");
    assert_eq!(sanitize_folder_name("a*b?c"), "a_b_c");
    assert_eq!(sanitize_folder_name("\ttab"), "_tab");
    assert_eq!(sanitize_folder_name("   "), "");
    assert_eq!(sanitize_folder_name(""), "");
}

#[test]
fn names_and_urls_are_cut_at_their_last_separator() {
    assert_eq!(ext_from_filename("a.tar.gz"), "gz");
    assert_eq!(ext_from_filename("noext"), "noext");
    assert_eq!(ext_from_filename("dot."), "");
    assert_eq!(file_id_of_url("http://10.0.0.5:18080/file/abc"), "abc");
    assert_eq!(file_id_of_url("abc"), "abc");
    assert_eq!(file_id_of_url("http://x/"), "");
    assert_eq!(shared_file_name("abc", "png"), "abc.png");
    assert_eq!(type_folder("image"), "images");
    assert_eq!(type_folder("video"), "videos");
    assert_eq!(type_folder("file"), "files");
    assert_eq!(type_folder("Image"), "files");
}

#[test]
fn download_stages_report_their_progress() {
    let stages = [
        (DownloadStage::Downloading, "downloading", 0u8),
        (DownloadStage::Cached, "cached", 100),
        (DownloadStage::Error, "error", 0),
        (DownloadStage::Saving, "saving", 80),
        (DownloadStage::Complete, "complete", 100),
    ];
    for (stage, name, percent) in stages {
        assert_eq!(stage.name(), name);
        let event = download_progress("f", "n.png", stage, Some("/p".into()));
        assert_eq!(event.channel_name(), "file-download-progress");
        match event {
            AppEvent::FileDownloadProgress { file_id, file_name, stage: s, progress, local_path } => {
                assert_eq!(file_id, "f");
                assert_eq!(file_name, "n.png");
                assert_eq!(s, stage);
                assert_eq!(progress, percent);
                assert_eq!(local_path.is_some(), stage == DownloadStage::Complete);
            }
            other => panic!("unexpected {:?}", other),
        }
    }
}

#[test]
fn local_urls_use_the_loopback_address() {
    assert_eq!(local_file_url(18080, "f1"), "http://127.0.0.1:18080/file/f1");
    assert_eq!(get_local_file_url(0, "f1"), None);
    assert_eq!(get_local_file_url(9, "f1").as_deref(), Some("http://127.0.0.1:9/file/f1"));
    assert_eq!(store_shared_file(18080, "f1"), "http://{IP}:18080/file/f1");
    assert_eq!(avatar_file_id("d1"), "avatar_d1");
    assert_eq!(avatar_file_name("d1"), "user_d1.png");
    assert!(is_local_server_url("http://127.0.0.1:18080/file/x"));
    assert!(is_local_server_url("http://localhost:1/file/x"));
    assert!(!is_local_server_url("http://10.0.0.5:18080/file/x"));
    assert!(!is_local_server_url("http://127.0.0.1/file/x"));
}

#[test]
fn caching_an_avatar_needs_device_and_url() {
    assert_eq!(download_and_cache_avatar("", "http://x").err(), Some(CommandError::MissingAvatarSource));
    assert_eq!(download_and_cache_avatar("d", "").err(), Some(CommandError::MissingAvatarSource));
    assert_eq!(
        download_and_cache_avatar("d", "http://10.0.0.5:1/file/a"),
        Ok(("user_d.png".to_string(), false))
    );
    assert_eq!(
        download_and_cache_avatar("d", "http://localhost:1/file/a"),
        Ok(("user_d.png".to_string(), true))
    );
    assert_eq!(CommandError::MissingAvatarSource.message(), "device_id and remote_url required");
}

#[test]
fn file_schemes_are_stripped() {
    assert_eq!(strip_file_scheme("file:///C:/a/b.png"), "C:/a/b.png");
    assert_eq!(strip_file_scheme("file://server/a.png"), "server/a.png");
    assert_eq!(strip_file_scheme("/plain/path.png"), "/plain/path.png");
    assert_eq!(strip_file_scheme("file:///file:///x"), "x");
    assert_eq!(strip_file_scheme("file://file://x"), "x");
    assert_eq!(strip_file_scheme("file:///file://x"), "file://x");
    assert_eq!(strip_file_scheme("file:///"), "");
    assert_eq!(strip_file_scheme(""), "");
}

#[test]
fn stored_files_become_data_urls() {
    assert_eq!(read_file_as_data_url("PNG", b"hello"), "data:image/png;base64,aGVsbG8=");
    assert_eq!(read_file_as_data_url("jpeg", b""), "data:image/jpeg;base64,");
    assert_eq!(read_file_as_data_url("bin", &[0, 1, 2]), "data:application/octet-stream;base64,AAEC");
    assert_eq!(inline_mime_of("jpg"), "image/jpeg");
    assert_eq!(inline_mime_of("gif"), "image/gif");
    assert_eq!(inline_mime_of("webp"), "image/webp");
    assert_eq!(inline_mime_of("mp4"), "video/mp4");
    assert_eq!(inline_mime_of("webm"), "video/webm");
    assert_eq!(inline_mime_of("svg"), "application/octet-stream");
    assert_eq!(inline_mime_of("pdf"), "application/octet-stream");
}

#[test]
fn events_go_out_on_their_channels() {
    let p = peer_info("a", "1.1.1.1", 1);
    assert_eq!(AppEvent::PeerUpdated { peer: p }.channel_name(), "peer-updated");
    assert_eq!(AppEvent::PeerLost { device_id: "a".into() }.channel_name(), "peer-lost");
    assert_eq!(
        AppEvent::PeerAddressSeen { device_id: "a".into(), username: "A".into(), ip_address: "i".into(), port: 1 }
            .channel_name(),
        "peer-updated"
    );
    assert_eq!(
        AppEvent::GroupMemberRemoved { from: "a".into(), group_id: "g".into(), user_id: "u".into() }
            .channel_name(),
        "group-member-removed"
    );
}

#[test]
fn a_download_is_kept_by_identifier_and_filed_by_sender_and_kind() {
    let plan = auto_download_file("http://10.0.0.5:18080/file/abc123", "Ana/Maria", "holiday.JPG", "image");
    assert_eq!(plan.file_id, "abc123");
    assert_eq!(plan.shared_name, "abc123.JPG");
    assert_eq!(plan.sender_folder, "Ana_Maria");
    assert_eq!(plan.type_folder, "images");
    let plan = auto_download_file("abc", " Bo ", "notes", "file");
    assert_eq!(plan.file_id, "abc");
    assert_eq!(plan.shared_name, "abc.notes");
    assert_eq!(plan.sender_folder, "Bo");
    assert_eq!(plan.type_folder, "files");
    assert_eq!(check_file_downloaded("Ana/Maria", "video"), ("Ana_Maria".to_string(), "videos"));
}

#[test]
fn a_local_avatar_is_served_under_the_device() {
    let plan = register_local_avatar("d1", "file:///home/u/a.png");
    assert_eq!(plan.path, "home/u/a.png");
    assert_eq!(plan.file_id, "avatar_d1");
    assert_eq!(plan.fallback_name, "user_d1.png");
    assert_eq!(register_local_avatar("d1", "/home/u/a.png").path, "/home/u/a.png");
}

#[test]
fn the_port_of_a_reference_counts_unless_it_is_useless() {
    assert_eq!(pending_port(Some(18080), 45678), 18080);
    assert_eq!(pending_port(Some(0), 45678), 45678);
    assert_eq!(pending_port(None, 45678), 45678);
    assert_eq!(folder_char_or_underscore('a', true), 'a');
    assert_eq!(folder_char_or_underscore('/', false), '_');
    assert_eq!(folder_char_or_underscore(' ', false), ' ');
    assert_eq!(folder_char_or_underscore('.', false), '.');
    assert_eq!(folder_char_or_underscore('-', false), '-');
    assert_eq!(folder_char_or_underscore('_', false), '_');
}
