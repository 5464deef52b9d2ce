//! The rules that tie discovery, signaling, the media server and the store
//! together: what an incoming event makes the application store, show and
//! send, and how the requests of the user interface become rows and
//! messages.
//!
//! Nothing here touches a socket or the store. A decision comes out as a
//! list of effects, which the caller carries out in order.

use crate::crypto::generate_device_id;
use crate::primitives::{base64_encode, base64_text};
use crate::db::{optional_view, Group, GroupMember, GroupMessage, Message, Note, User};
use crate::discovery::{DiscoveryEvent, DiscoveryManager, PeerInfo};
use crate::signaling::{PeerAddress, SignalingError, SignalingMessage, SignalingServer};
use crate::text::{
    alphanumeric, decimal, decimal_text, find_after_last, has_prefix, last_segment, lowercase_text,
    parse_u16, parsed_u16, same_text, split, split_text, starts_with, text_of, text_starts_with,
    to_chars, trimmed_text,
};
use vstd::prelude::*;

verus! {

/// What the user interface is told.
#[derive(Debug)]
pub enum AppEvent {
    /// A peer was heard for the first time.
    PeerDiscovered { peer: PeerInfo },
    /// A known peer announced itself again.
    PeerUpdated { peer: PeerInfo },
    /// A peer said goodbye or fell silent.
    PeerLost { device_id: String },
    /// The avatar of a peer, known by reference only, has got its address.
    PeerAvatarResolved { device_id: String, username: String, avatar_path: String },
    /// A peer was heard on the signaling bus from this address.
    PeerAddressSeen { device_id: String, username: String, ip_address: String, port: u16 },
    /// A direct message has arrived and is stored.
    ChatMessageReceived { message: Message },
    /// A peer changed its profile.
    ProfileUpdated {
        from: String,
        to: String,
        username: String,
        avatar_url: Option<String>,
        bio: Option<String>,
        designation: Option<String>,
    },
    /// A group was shared with this device.
    GroupCreated { group: Group },
    /// A message to a group has arrived and is stored.
    GroupMessageReceived { message: GroupMessage },
    /// A chat message within a meeting has arrived; it is not stored.
    MeetingChatReceived {
        from: String,
        session_id: String,
        id: String,
        content: String,
        sender_name: String,
        timestamp: String,
    },
    /// A member joined a group.
    GroupMemberAdded { from: String, group_id: String, user_id: String, username: String },
    /// A member left a group.
    GroupMemberRemoved { from: String, group_id: String, user_id: String },
    /// Any other message of the bus, as it came.
    Signaling { message: SignalingMessage },
    /// A user was deleted.
    UserDeleted { user_id: String },
    /// A file that a peer offers is on its way to this device.
    FileDownloadProgress {
        file_id: String,
        file_name: String,
        stage: DownloadStage,
        progress: u8,
        local_path: Option<String>,
    },
}

/// How far the download of a file has come.
#[derive(Debug, Clone, Copy, PartialEq, Eq, Structural)]
pub enum DownloadStage {
    Downloading,
    Cached,
    Error,
    Saving,
    Complete,
}

impl AppEvent {
    /// The name of the channel on which the event goes out.
    pub open spec fn channel(&self) -> Seq<char> {
        match *self {
            AppEvent::PeerDiscovered { .. } => "peer-discovered"@,
            AppEvent::PeerUpdated { .. } => "peer-updated"@,
            AppEvent::PeerLost { .. } => "peer-lost"@,
            AppEvent::PeerAvatarResolved { .. } => "peer-updated"@,
            AppEvent::PeerAddressSeen { .. } => "peer-updated"@,
            AppEvent::ChatMessageReceived { .. } => "chat-message-received"@,
            AppEvent::ProfileUpdated { .. } => "signaling-message"@,
            AppEvent::GroupCreated { .. } => "group-created"@,
            AppEvent::GroupMessageReceived { .. } => "group-message-received"@,
            AppEvent::MeetingChatReceived { .. } => "meeting-chat-received"@,
            AppEvent::GroupMemberAdded { .. } => "group-member-added"@,
            AppEvent::GroupMemberRemoved { .. } => "group-member-removed"@,
            AppEvent::Signaling { .. } => "signaling-message"@,
            AppEvent::UserDeleted { .. } => "user-deleted"@,
            AppEvent::FileDownloadProgress { .. } => "file-download-progress"@,
        }
    }

    /// The name of the channel on which the event goes out.
    pub fn channel_name(&self) -> (name: &'static str)
        ensures
            name@ == self.channel(),
    {
        match self {
            AppEvent::PeerDiscovered { .. } => "peer-discovered",
            AppEvent::PeerUpdated { .. } => "peer-updated",
            AppEvent::PeerLost { .. } => "peer-lost",
            AppEvent::PeerAvatarResolved { .. } => "peer-updated",
            AppEvent::PeerAddressSeen { .. } => "peer-updated",
            AppEvent::ChatMessageReceived { .. } => "chat-message-received",
            AppEvent::ProfileUpdated { .. } => "signaling-message",
            AppEvent::GroupCreated { .. } => "group-created",
            AppEvent::GroupMessageReceived { .. } => "group-message-received",
            AppEvent::MeetingChatReceived { .. } => "meeting-chat-received",
            AppEvent::GroupMemberAdded { .. } => "group-member-added",
            AppEvent::GroupMemberRemoved { .. } => "group-member-removed",
            AppEvent::Signaling { .. } => "signaling-message",
            AppEvent::UserDeleted { .. } => "user-deleted",
            AppEvent::FileDownloadProgress { .. } => "file-download-progress",
        }
    }
}

/// One thing for the caller to do. A failure of the store is noted and the
/// effects that follow are carried out all the same.
#[derive(Debug)]
pub enum Effect {
    /// Store the peer as a user, online and seen now.
    UpsertPeer { device_id: String, username: String, public_key: Option<String> },
    /// Set the avatar of a user.
    SetAvatar { device_id: String, avatar: String },
    /// Store a direct message, unless it is stored already.
    StoreMessage { message: Message },
    /// Store a group.
    StoreGroup { group: Group },
    /// Store a member of a group.
    AddGroupMember { member: GroupMember },
    /// Take a member out of a group.
    RemoveGroupMember { group_id: String, user_id: String },
    /// Store a message to a group.
    StoreGroupMessage { message: GroupMessage },
    /// Tell the user interface.
    Emit { event: AppEvent },
    /// Send a message over the signaling bus.
    Send { to: String, message: SignalingMessage },
}

/// The URL of a file on the media server of a peer.
pub open spec fn peer_file_url(ip: Seq<char>, port: u16, file_id: Seq<char>) -> Seq<char> {
    "http://"@ + ip + ":"@ + decimal_text(port as nat) + "/file/"@ + file_id
}

/// The reference that stands for an avatar whose address is not known yet.
pub open spec fn avatar_placeholder(file_id: Seq<char>, port: u16) -> Seq<char> {
    "filemeta:"@ + file_id + ":"@ + decimal_text(port as nat)
}

/// The URL that a stored avatar reference `filemeta:<file>:<port>` resolves
/// to once the peer has been heard from `ip` and `port`: the port that the
/// reference names counts unless it is missing, unreadable or 0. Anything that is
/// no such reference resolves to nothing.
pub open spec fn pending_avatar_url(avatar: Seq<char>, ip: Seq<char>, port: u16) -> Option<
    Seq<char>,
> {
    let parts = split_text(avatar, ':');
    if has_prefix(avatar, "filemeta:"@) && parts.len() >= 3 {
        let meta_port = match parsed_u16(parts[2]) {
            Some(p) => if p != 0 {
                p
            } else {
                port
            },
            None => port,
        };
        Some(peer_file_url(ip, meta_port, parts[1]))
    } else {
        None
    }
}

/// The avatar that a profile update leaves a peer with: the URL it names;
/// else, for a file it names, the URL of that file at the peer's address if
/// the peer is bound, and a placeholder if it is not; else none.
pub open spec fn profile_avatar(
    avatar_url: Option<Seq<char>>,
    avatar_file_id: Option<Seq<char>>,
    avatar_file_port: Option<u16>,
    binding: Option<(Seq<char>, u16)>,
) -> Option<Seq<char>> {
    match avatar_url {
        Some(url) => Some(url),
        None => match avatar_file_id {
            Some(file_id) => match binding {
                Some(address) => Some(
                    peer_file_url(
                        address.0,
                        match avatar_file_port {
                            Some(p) => p,
                            None => address.1,
                        },
                        file_id,
                    ),
                ),
                None => Some(
                    avatar_placeholder(
                        file_id,
                        match avatar_file_port {
                            Some(p) => p,
                            None => 0,
                        },
                    ),
                ),
            },
            None => None,
        },
    }
}

/// The URL of a file on the media server of a peer.
pub fn make_peer_file_url(ip: &str, port: u16, file_id: &str) -> (url: String)
    ensures
        url@ == peer_file_url(ip@, port, file_id@),
{
    let mut url = String::from_str("http://");
    url.append(ip);
    url.append(":");
    url.append(decimal(port as u64).as_str());
    url.append("/file/");
    url.append(file_id);
    url
}

/// The reference that stands for an avatar whose address is not known yet.
pub fn make_avatar_placeholder(file_id: &str, port: u16) -> (reference: String)
    ensures
        reference@ == avatar_placeholder(file_id@, port),
{
    let mut reference = String::from_str("filemeta:");
    reference.append(file_id);
    reference.append(":");
    reference.append(decimal(port as u64).as_str());
    reference
}

/// Resolves a stored avatar reference for a peer that has been heard from
/// `ip` and `port`.
pub fn resolve_pending_avatar(avatar: &str, ip: &str, port: u16) -> (url: Option<String>)
    ensures
        optional_view(url) == pending_avatar_url(avatar@, ip@, port),
{
    let chars = to_chars(avatar);
    let prefix = to_chars("filemeta:");
    if !starts_with(&chars, &prefix) {
        return None;
    }
    let parts = split(&chars, ':');
    if parts.len() < 3 {
        return None;
    }
    let meta_port = pending_port(parse_u16(parts[2].as_str()), port);
    Some(make_peer_file_url(ip, meta_port, parts[1].as_str()))
}

/// The port at which the file of an avatar reference is fetched: the port
/// read from the reference, unless none could be read or it is 0; then the
/// port that the peer was heard from.
pub fn pending_port(read: Option<u16>, heard: u16) -> (port: u16)
    ensures
        port == match read {
            Some(p) => if p != 0 {
                p
            } else {
                heard
            },
            None => heard,
        },
{
    match read {
        Some(p) => if p != 0 {
            p
        } else {
            heard
        },
        None => heard,
    }
}

/// The avatar that a profile update leaves a peer with.
pub fn resolve_profile_avatar(
    avatar_url: &Option<String>,
    avatar_file_id: &Option<String>,
    avatar_file_port: Option<u16>,
    binding: &Option<PeerAddress>,
) -> (avatar: Option<String>)
    ensures
        optional_view(avatar) == profile_avatar(
            optional_view(*avatar_url),
            optional_view(*avatar_file_id),
            avatar_file_port,
            match *binding {
                Some(address) => Some(address@),
                None => None,
            },
        ),
{
    match avatar_url {
        Some(url) => Some(url.clone()),
        None => match avatar_file_id {
            Some(file_id) => match binding {
                Some(address) => {
                    let port = match avatar_file_port {
                        Some(p) => p,
                        None => address.port,
                    };
                    Some(make_peer_file_url(address.ip.as_str(), port, file_id.as_str()))
                },
                None => {
                    let port = match avatar_file_port {
                        Some(p) => p,
                        None => 0,
                    };
                    Some(make_avatar_placeholder(file_id.as_str(), port))
                },
            },
            None => None,
        },
    }
}

/// Whether an effect stores the peer as a user of this name and key.
pub open spec fn upserts(
    effect: Effect,
    device_id: Seq<char>,
    username: Seq<char>,
    public_key: Option<Seq<char>>,
) -> bool {
    effect matches Effect::UpsertPeer { device_id: d, username: u, public_key: k } && d@
        == device_id && u@ == username && optional_view(k) == public_key
}

/// Whether an effect sets this avatar for this user.
pub open spec fn sets_avatar(effect: Effect, device_id: Seq<char>, avatar: Seq<char>) -> bool {
    effect matches Effect::SetAvatar { device_id: d, avatar: a } && d@ == device_id && a@
        == avatar
}

/// Whether a message is the row for a chat message that has arrived: not
/// read, delivered, without file.
pub open spec fn arrived_message(
    message: Message,
    local_id: Seq<char>,
    from: Seq<char>,
    id: Seq<char>,
    content: Seq<char>,
    message_type: Seq<char>,
    timestamp: Seq<char>,
) -> bool {
    &&& message.id@ == id
    &&& message.sender_id@ == from
    &&& message.receiver_id@ == local_id
    &&& message.content@ == content
    &&& message.message_type@ == message_type
    &&& message.file_path is None
    &&& !message.is_read
    &&& message.is_delivered
    &&& message.created_at@ == timestamp
}

/// Whether a message to a group is the row for one that has arrived.
pub open spec fn arrived_group_message(
    message: GroupMessage,
    from: Seq<char>,
    group_id: Seq<char>,
    id: Seq<char>,
    content: Seq<char>,
    message_type: Seq<char>,
    sender_name: Seq<char>,
    timestamp: Seq<char>,
) -> bool {
    &&& message.id@ == id
    &&& message.group_id@ == group_id
    &&& message.sender_id@ == from
    &&& message.sender_name@ == sender_name
    &&& message.content@ == content
    &&& message.message_type@ == message_type
    &&& message.created_at@ == timestamp
}

/// Whether a message is the acknowledgement of a chat message.
pub open spec fn acknowledges(
    message: SignalingMessage,
    local_id: Seq<char>,
    sender: Seq<char>,
    message_id: Seq<char>,
) -> bool {
    message matches SignalingMessage::DeliveryAck { from, to, message_id: m } && from@ == local_id
        && to@ == sender && m@ == message_id
}

/// Whether a row is this member of this group.
pub open spec fn member_row(
    member: GroupMember,
    group_id: Seq<char>,
    user_id: Seq<char>,
    username: Seq<char>,
    role: Seq<char>,
    joined_at: Seq<char>,
) -> bool {
    &&& member.group_id@ == group_id
    &&& member.user_id@ == user_id
    &&& member.username@ == username
    &&& member.role@ == role
    &&& member.joined_at@ == joined_at
}

/// Whether a row is this group.
pub open spec fn group_row(
    group: Group,
    id: Seq<char>,
    name: Seq<char>,
    created_by: Seq<char>,
    avatar_color: Option<Seq<char>>,
    created_at: Seq<char>,
) -> bool {
    &&& group.id@ == id
    &&& group.name@ == name
    &&& group.created_by@ == created_by
    &&& optional_view(group.avatar_color) == avatar_color
    &&& group.created_at@ == created_at
}

/// The role of a member of a shared group: the one who shares it is its
/// administrator.
pub open spec fn shared_role(user_id: Seq<char>, from: Seq<char>) -> Seq<char> {
    if user_id == from {
        "admin"@
    } else {
        "member"@
    }
}

/// The name of the member at position `i` of a shared group: empty where
/// the list of names is shorter than the list of members.
pub open spec fn shared_name(member_names: Seq<String>, i: int) -> Seq<char> {
    if 0 <= i < member_names.len() {
        member_names[i]@
    } else {
        Seq::empty()
    }
}

/// What a chat message that has arrived makes the application do: store the
/// sender as a user; if the sender is bound to an address, resolve an avatar
/// that waits for one and tell the user interface of the address; store the
/// message as delivered; tell the user interface; acknowledge.
pub open spec fn chat_effects(
    effects: Seq<Effect>,
    local_id: Seq<char>,
    from: Seq<char>,
    id: Seq<char>,
    content: Seq<char>,
    message_type: Seq<char>,
    sender_name: Seq<char>,
    timestamp: Seq<char>,
    binding: Option<(Seq<char>, u16)>,
    stored_avatar: Option<Seq<char>>,
) -> bool {
    let resolved = match (binding, stored_avatar) {
        (Some(address), Some(avatar)) => pending_avatar_url(avatar, address.0, address.1),
        _ => None,
    };
    let a: int = if resolved is Some {
        2
    } else {
        0
    };
    let b: int = if binding is Some {
        1
    } else {
        0
    };
    &&& effects.len() == 4 + a + b
    &&& upserts(effects[0], from, sender_name, None)
    &&& resolved matches Some(url) ==> sets_avatar(effects[1], from, url) && (
    effects[2] matches Effect::Emit {
        event: AppEvent::PeerAvatarResolved { device_id, username, avatar_path },
    } && device_id@ == from && username@ == sender_name && avatar_path@ == url)
    &&& binding matches Some(address) ==> (effects[1 + a] matches Effect::Emit {
        event: AppEvent::PeerAddressSeen { device_id, username, ip_address, port },
    } && device_id@ == from && username@ == sender_name && ip_address@ == address.0 && port
        == address.1)
    &&& effects[1 + a + b] matches Effect::StoreMessage { message } && arrived_message(
        message,
        local_id,
        from,
        id,
        content,
        message_type,
        timestamp,
    )
    &&& effects[2 + a + b] matches Effect::Emit {
        event: AppEvent::ChatMessageReceived { message },
    } && arrived_message(message, local_id, from, id, content, message_type, timestamp)
    &&& effects[3 + a + b] matches Effect::Send { to, message } && to@ == from && acknowledges(
        message,
        local_id,
        from,
        id,
    )
}

/// What a profile update makes the application do: store the sender as a
/// user under the new name, set the avatar that the update leaves it with,
/// if any, and tell the user interface.
pub open spec fn profile_effects(
    effects: Seq<Effect>,
    local_id: Seq<char>,
    from: Seq<char>,
    username: Seq<char>,
    avatar: Option<Seq<char>>,
    bio: Option<Seq<char>>,
    designation: Option<Seq<char>>,
) -> bool {
    let a: int = if avatar is Some {
        1
    } else {
        0
    };
    &&& effects.len() == 2 + a
    &&& upserts(effects[0], from, username, None)
    &&& avatar matches Some(url) ==> sets_avatar(effects[1], from, url)
    &&& effects[1 + a] matches Effect::Emit {
        event: AppEvent::ProfileUpdated { from: f, to, username: u, avatar_url, bio: b, designation: d },
    } && f@ == from && to@ == local_id && u@ == username && optional_view(avatar_url) == avatar
        && optional_view(b) == bio && optional_view(d) == designation
}

/// What a shared group makes the application do: store the group, store
/// each of its members, and tell the user interface.
pub open spec fn group_created_effects(
    effects: Seq<Effect>,
    from: Seq<char>,
    id: Seq<char>,
    name: Seq<char>,
    member_ids: Seq<String>,
    member_names: Seq<String>,
    created_at: Seq<char>,
    now: Seq<char>,
) -> bool {
    let n = member_ids.len() as int;
    &&& effects.len() == n + 2
    &&& effects[0] matches Effect::StoreGroup { group } && group_row(
        group,
        id,
        name,
        from,
        None,
        created_at,
    )
    &&& forall|i: int|
        0 <= i < n ==> ((#[trigger] effects[1 + i]) matches Effect::AddGroupMember { member }
            && member_row(
            member,
            id,
            member_ids[i]@,
            shared_name(member_names, i),
            shared_role(member_ids[i]@, from),
            now,
        ))
    &&& effects[n + 1] matches Effect::Emit { event: AppEvent::GroupCreated { group } }
        && group_row(group, id, name, from, None, created_at)
}

/// What a message to a group makes the application do: store the sender as
/// a user, store the message, and tell the user interface.
pub open spec fn group_chat_effects(
    effects: Seq<Effect>,
    from: Seq<char>,
    group_id: Seq<char>,
    id: Seq<char>,
    content: Seq<char>,
    message_type: Seq<char>,
    sender_name: Seq<char>,
    timestamp: Seq<char>,
) -> bool {
    &&& effects.len() == 3
    &&& upserts(effects[0], from, sender_name, None)
    &&& effects[1] matches Effect::StoreGroupMessage { message } && arrived_group_message(
        message,
        from,
        group_id,
        id,
        content,
        message_type,
        sender_name,
        timestamp,
    )
    &&& effects[2] matches Effect::Emit {
        event: AppEvent::GroupMessageReceived { message },
    } && arrived_group_message(
        message,
        from,
        group_id,
        id,
        content,
        message_type,
        sender_name,
        timestamp,
    )
}

/// What any message of the bus makes the application do, given the address
/// that its sender is bound to, the avatar that the store holds for the
/// sender, and the time.
pub open spec fn signaling_effects(
    effects: Seq<Effect>,
    message: SignalingMessage,
    local_id: Seq<char>,
    binding: Option<(Seq<char>, u16)>,
    stored_avatar: Option<Seq<char>>,
    now: Seq<char>,
) -> bool {
    match message {
        SignalingMessage::ChatMessage {
            from,
            to,
            id,
            content,
            message_type,
            sender_name,
            timestamp,
        } => chat_effects(
            effects,
            local_id,
            from@,
            id@,
            content@,
            message_type@,
            sender_name@,
            timestamp@,
            binding,
            stored_avatar,
        ),
        SignalingMessage::ProfileUpdate {
            from,
            to,
            username,
            avatar_url,
            avatar_file_id,
            avatar_file_port,
            bio,
            designation,
        } => profile_effects(
            effects,
            local_id,
            from@,
            username@,
            profile_avatar(
                optional_view(avatar_url),
                optional_view(avatar_file_id),
                avatar_file_port,
                binding,
            ),
            optional_view(bio),
            optional_view(designation),
        ),
        SignalingMessage::GroupCreated {
            from,
            to,
            id,
            name,
            member_ids,
            member_names,
            created_at,
        } => group_created_effects(
            effects,
            from@,
            id@,
            name@,
            member_ids@,
            member_names@,
            created_at@,
            now,
        ),
        SignalingMessage::GroupChatMessage {
            from,
            to,
            group_id,
            id,
            content,
            message_type,
            sender_name,
            timestamp,
        } => group_chat_effects(
            effects,
            from@,
            group_id@,
            id@,
            content@,
            message_type@,
            sender_name@,
            timestamp@,
        ),
        SignalingMessage::MeetingChatMessage {
            from,
            to,
            session_id,
            id,
            content,
            sender_name,
            timestamp,
        } => effects.len() == 1 && (effects[0] matches Effect::Emit {
            event: AppEvent::MeetingChatReceived {
                from: f,
                session_id: s,
                id: i,
                content: c,
                sender_name: n,
                timestamp: t,
            },
        } && f@ == from@ && s@ == session_id@ && i@ == id@ && c@ == content@ && n@
            == sender_name@ && t@ == timestamp@),
        SignalingMessage::GroupMemberAdded { from, to, group_id, user_id, username } => {
            &&& effects.len() == 2
            &&& effects[0] matches Effect::AddGroupMember { member } && member_row(
                member,
                group_id@,
                user_id@,
                username@,
                "member"@,
                now,
            )
            &&& effects[1] matches Effect::Emit {
                event: AppEvent::GroupMemberAdded { from: f, group_id: g, user_id: u, username: n },
            } && f@ == from@ && g@ == group_id@ && u@ == user_id@ && n@ == username@
        },
        SignalingMessage::GroupMemberRemoved { from, to, group_id, user_id } => {
            &&& effects.len() == 2
            &&& effects[0] matches Effect::RemoveGroupMember { group_id: g, user_id: u } && g@
                == group_id@ && u@ == user_id@
            &&& effects[1] matches Effect::Emit {
                event: AppEvent::GroupMemberRemoved { from: f, group_id: g, user_id: u },
            } && f@ == from@ && g@ == group_id@ && u@ == user_id@
        },
        _ => effects.len() == 1 && (effects[0] matches Effect::Emit {
            event: AppEvent::Signaling { message: m },
        } && m == message),
    }
}

/// The row for a chat message that has arrived.
pub fn incoming_message(
    local_id: &str,
    from: &str,
    id: &str,
    content: &str,
    message_type: &str,
    timestamp: &str,
) -> (message: Message)
    ensures
        arrived_message(message, local_id@, from@, id@, content@, message_type@, timestamp@),
{
    Message {
        id: String::from_str(id),
        sender_id: String::from_str(from),
        receiver_id: String::from_str(local_id),
        content: String::from_str(content),
        message_type: String::from_str(message_type),
        file_path: None,
        is_read: false,
        is_delivered: true,
        created_at: String::from_str(timestamp),
    }
}

/// The acknowledgement that goes back to the sender of a chat message.
pub fn delivery_ack(local_id: &str, sender: &str, message_id: &str) -> (ack: SignalingMessage)
    ensures
        acknowledges(ack, local_id@, sender@, message_id@),
{
    SignalingMessage::DeliveryAck {
        from: String::from_str(local_id),
        to: String::from_str(sender),
        message_id: String::from_str(message_id),
    }
}

fn on_chat_message(
    local_id: &str,
    from: &str,
    id: &str,
    content: &str,
    message_type: &str,
    sender_name: &str,
    timestamp: &str,
    binding: &Option<PeerAddress>,
    stored_avatar: &Option<String>,
) -> (effects: Vec<Effect>)
    ensures
        chat_effects(
            effects@,
            local_id@,
            from@,
            id@,
            content@,
            message_type@,
            sender_name@,
            timestamp@,
            match *binding {
                Some(address) => Some(address@),
                None => None,
            },
            optional_view(*stored_avatar),
        ),
{
    let mut effects: Vec<Effect> = Vec::new();
    effects.push(
        Effect::UpsertPeer {
            device_id: String::from_str(from),
            username: String::from_str(sender_name),
            public_key: None,
        },
    );
    match binding {
        Some(address) => {
            let resolved = match stored_avatar {
                Some(avatar) => resolve_pending_avatar(
                    avatar.as_str(),
                    address.ip.as_str(),
                    address.port,
                ),
                None => None,
            };
            match resolved {
                Some(url) => {
                    effects.push(
                        Effect::SetAvatar { device_id: String::from_str(from), avatar: url.clone() },
                    );
                    effects.push(
                        Effect::Emit {
                            event: AppEvent::PeerAvatarResolved {
                                device_id: String::from_str(from),
                                username: String::from_str(sender_name),
                                avatar_path: url,
                            },
                        },
                    );
                },
                None => {},
            }
            effects.push(
                Effect::Emit {
                    event: AppEvent::PeerAddressSeen {
                        device_id: String::from_str(from),
                        username: String::from_str(sender_name),
                        ip_address: address.ip.clone(),
                        port: address.port,
                    },
                },
            );
        },
        None => {},
    }
    let message = incoming_message(local_id, from, id, content, message_type, timestamp);
    effects.push(Effect::StoreMessage { message: message.clone() });
    effects.push(Effect::Emit { event: AppEvent::ChatMessageReceived { message } });
    effects.push(
        Effect::Send { to: String::from_str(from), message: delivery_ack(local_id, from, id) },
    );
    effects
}

fn on_group_created(
    from: &str,
    id: &str,
    name: &str,
    member_ids: &Vec<String>,
    member_names: &Vec<String>,
    created_at: &str,
    now: &str,
) -> (effects: Vec<Effect>)
    ensures
        group_created_effects(
            effects@,
            from@,
            id@,
            name@,
            member_ids@,
            member_names@,
            created_at@,
            now@,
        ),
{
    let mut effects: Vec<Effect> = Vec::new();
    effects.push(
        Effect::StoreGroup {
            group: Group {
                id: String::from_str(id),
                name: String::from_str(name),
                created_by: String::from_str(from),
                avatar_color: None,
                created_at: String::from_str(created_at),
            },
        },
    );
    let mut i: usize = 0;
    while i < member_ids.len()
        invariant
            i <= member_ids.len(),
            effects@.len() == i + 1,
            effects@[0] matches Effect::StoreGroup { group } && group_row(
                group,
                id@,
                name@,
                from@,
                None,
                created_at@,
            ),
            forall|k: int|
                0 <= k < i ==> ((#[trigger] effects@[1 + k]) matches Effect::AddGroupMember {
                    member,
                } && member_row(
                    member,
                    id@,
                    member_ids@[k]@,
                    shared_name(member_names@, k),
                    shared_role(member_ids@[k]@, from@),
                    now@,
                )),
        decreases member_ids.len() - i,
    {
        let username = if i < member_names.len() {
            member_names[i].clone()
        } else {
            String::new()
        };
        let role = if same_text(member_ids[i].as_str(), from) {
            String::from_str("admin")
        } else {
            String::from_str("member")
        };
        let ghost before = effects@;
        effects.push(
            Effect::AddGroupMember {
                member: GroupMember {
                    group_id: String::from_str(id),
                    user_id: member_ids[i].clone(),
                    username,
                    role,
                    joined_at: String::from_str(now),
                },
            },
        );
        proof {
            assert(effects@[0] == before[0]);
            assert forall|k: int| 0 <= k < i + 1 implies ((#[trigger] effects@[1 + k]) matches Effect::AddGroupMember {
                member,
            } && member_row(
                member,
                id@,
                member_ids@[k]@,
                shared_name(member_names@, k),
                shared_role(member_ids@[k]@, from@),
                now@,
            )) by {
                if k < i {
                    assert(effects@[1 + k] == before[1 + k]);
                }
            }
        }
        i += 1;
    }
    let ghost before = effects@;
    effects.push(
        Effect::Emit {
            event: AppEvent::GroupCreated {
                group: Group {
                    id: String::from_str(id),
                    name: String::from_str(name),
                    created_by: String::from_str(from),
                    avatar_color: None,
                    created_at: String::from_str(created_at),
                },
            },
        },
    );
    proof {
        assert(effects@[0] == before[0]);
        assert forall|k: int| 0 <= k < member_ids@.len() implies ((#[trigger] effects@[1 + k]) matches Effect::AddGroupMember {
            member,
        } && member_row(
            member,
            id@,
            member_ids@[k]@,
            shared_name(member_names@, k),
            shared_role(member_ids@[k]@, from@),
            now@,
        )) by {
            assert(effects@[1 + k] == before[1 + k]);
        }
    }
    effects
}

/// Decides what a message that the signaling bus has forwarded makes the
/// application do. `binding` is the address that the bus has the sender
/// bound to, `stored_avatar` the avatar that the store holds for the sender,
/// `now` the time.
pub fn handle_signaling_message(
    message: SignalingMessage,
    local_id: &str,
    binding: &Option<PeerAddress>,
    stored_avatar: &Option<String>,
    now: &str,
) -> (effects: Vec<Effect>)
    ensures
        signaling_effects(
            effects@,
            message,
            local_id@,
            match *binding {
                Some(address) => Some(address@),
                None => None,
            },
            optional_view(*stored_avatar),
            now@,
        ),
{
    match message {
        SignalingMessage::ChatMessage {
            from,
            to,
            id,
            content,
            message_type,
            sender_name,
            timestamp,
        } => on_chat_message(
            local_id,
            from.as_str(),
            id.as_str(),
            content.as_str(),
            message_type.as_str(),
            sender_name.as_str(),
            timestamp.as_str(),
            binding,
            stored_avatar,
        ),
        SignalingMessage::ProfileUpdate {
            from,
            to,
            username,
            avatar_url,
            avatar_file_id,
            avatar_file_port,
            bio,
            designation,
        } => {
            let mut effects: Vec<Effect> = Vec::new();
            effects.push(
                Effect::UpsertPeer {
                    device_id: from.clone(),
                    username: username.clone(),
                    public_key: None,
                },
            );
            let resolved = resolve_profile_avatar(
                &avatar_url,
                &avatar_file_id,
                avatar_file_port,
                binding,
            );
            match &resolved {
                Some(url) => {
                    effects.push(Effect::SetAvatar { device_id: from.clone(), avatar: url.clone() });
                },
                None => {},
            }
            effects.push(
                Effect::Emit {
                    event: AppEvent::ProfileUpdated {
                        from,
                        to: String::from_str(local_id),
                        username,
                        avatar_url: resolved,
                        bio,
                        designation,
                    },
                },
            );
            effects
        },
        SignalingMessage::GroupCreated {
            from,
            to,
            id,
            name,
            member_ids,
            member_names,
            created_at,
        } => on_group_created(
            from.as_str(),
            id.as_str(),
            name.as_str(),
            &member_ids,
            &member_names,
            created_at.as_str(),
            now,
        ),
        SignalingMessage::GroupChatMessage {
            from,
            to,
            group_id,
            id,
            content,
            message_type,
            sender_name,
            timestamp,
        } => {
            let mut effects: Vec<Effect> = Vec::new();
            effects.push(
                Effect::UpsertPeer {
                    device_id: from.clone(),
                    username: sender_name.clone(),
                    public_key: None,
                },
            );
            let stored = GroupMessage {
                id,
                group_id,
                sender_id: from,
                sender_name,
                content,
                message_type,
                created_at: timestamp,
            };
            effects.push(Effect::StoreGroupMessage { message: stored.clone() });
            effects.push(Effect::Emit { event: AppEvent::GroupMessageReceived { message: stored } });
            effects
        },
        SignalingMessage::MeetingChatMessage {
            from,
            to,
            session_id,
            id,
            content,
            sender_name,
            timestamp,
        } => {
            let mut effects: Vec<Effect> = Vec::new();
            effects.push(
                Effect::Emit {
                    event: AppEvent::MeetingChatReceived {
                        from,
                        session_id,
                        id,
                        content,
                        sender_name,
                        timestamp,
                    },
                },
            );
            effects
        },
        SignalingMessage::GroupMemberAdded { from, to, group_id, user_id, username } => {
            let mut effects: Vec<Effect> = Vec::new();
            effects.push(
                Effect::AddGroupMember {
                    member: GroupMember {
                        group_id: group_id.clone(),
                        user_id: user_id.clone(),
                        username: username.clone(),
                        role: String::from_str("member"),
                        joined_at: String::from_str(now),
                    },
                },
            );
            effects.push(
                Effect::Emit { event: AppEvent::GroupMemberAdded { from, group_id, user_id, username } },
            );
            effects
        },
        SignalingMessage::GroupMemberRemoved { from, to, group_id, user_id } => {
            let mut effects: Vec<Effect> = Vec::new();
            effects.push(
                Effect::RemoveGroupMember { group_id: group_id.clone(), user_id: user_id.clone() },
            );
            effects.push(
                Effect::Emit { event: AppEvent::GroupMemberRemoved { from, group_id, user_id } },
            );
            effects
        },
        other => {
            let mut effects: Vec<Effect> = Vec::new();
            effects.push(Effect::Emit { event: AppEvent::Signaling { message: other } });
            effects
        },
    }
}

/// Why a request of the user interface was refused.
#[derive(Debug, Clone, Copy, PartialEq, Eq, Structural)]
pub enum CommandError {
    /// The user to delete is the owner of this device.
    CannotDeleteLocalUser,
    /// An avatar was to be cached without device or without URL.
    MissingAvatarSource,
}

impl CommandError {
    /// The message that goes with the error.
    pub fn message(&self) -> (text: String)
        ensures
            text@ == match *self {
                CommandError::CannotDeleteLocalUser => "Cannot delete the local user"@,
                CommandError::MissingAvatarSource => "device_id and remote_url required"@,
            },
    {
        match self {
            CommandError::CannotDeleteLocalUser => String::from_str("Cannot delete the local user"),
            CommandError::MissingAvatarSource => String::from_str(
                "device_id and remote_url required",
            ),
        }
    }
}

/// Why a message found no way to its peer.
#[derive(Debug, Clone, Copy, PartialEq, Eq, Structural)]
pub enum RelayError {
    /// The signaling bus has not been started.
    SocketNotInitialized,
    /// Neither the signaling bus nor discovery knows the peer.
    PeerNotFound,
}

/// What a discovery event makes the application do. A peer that was
/// discovered or has announced itself again is bound, on the signaling bus,
/// to the address it was heard from, in place of an earlier binding; it is
/// stored as a user with its public key; and the user interface is told.
pub fn handle_discovery_event(signaling: &mut SignalingServer, event: DiscoveryEvent) -> (effects:
    Vec<Effect>)
    requires
        old(signaling).wf(),
    ensures
        final(signaling).wf(),
        final(signaling).device() == old(signaling).device(),
        final(signaling).ready() == old(signaling).ready(),
        final(signaling).running() == old(signaling).running(),
        match event {
            DiscoveryEvent::PeerLost { device_id } => {
                &&& final(signaling).peers() == old(signaling).peers()
                &&& effects@.len() == 1
                &&& effects@[0] matches Effect::Emit { event: AppEvent::PeerLost { device_id: d } }
                    && d == device_id
            },
            DiscoveryEvent::PeerDiscovered { peer } => {
                &&& announced(*old(signaling), *final(signaling), peer)
                &&& effects@.len() == 2
                &&& upserts(effects@[0], peer.device_id@, peer.username@, Some(peer.public_key@))
                &&& effects@[1] matches Effect::Emit { event: AppEvent::PeerDiscovered { peer: p } }
                    && p == peer
            },
            DiscoveryEvent::PeerUpdated { peer } => {
                &&& announced(*old(signaling), *final(signaling), peer)
                &&& effects@.len() == 2
                &&& upserts(effects@[0], peer.device_id@, peer.username@, Some(peer.public_key@))
                &&& effects@[1] matches Effect::Emit { event: AppEvent::PeerUpdated { peer: p } }
                    && p == peer
            },
        },
{
    let mut effects: Vec<Effect> = Vec::new();
    match event {
        DiscoveryEvent::PeerLost { device_id } => {
            effects.push(Effect::Emit { event: AppEvent::PeerLost { device_id } });
        },
        DiscoveryEvent::PeerDiscovered { peer } => {
            bind_announced(signaling, &peer);
            effects.push(
                Effect::UpsertPeer {
                    device_id: peer.device_id.clone(),
                    username: peer.username.clone(),
                    public_key: Some(peer.public_key.clone()),
                },
            );
            effects.push(Effect::Emit { event: AppEvent::PeerDiscovered { peer } });
        },
        DiscoveryEvent::PeerUpdated { peer } => {
            bind_announced(signaling, &peer);
            effects.push(
                Effect::UpsertPeer {
                    device_id: peer.device_id.clone(),
                    username: peer.username.clone(),
                    public_key: Some(peer.public_key.clone()),
                },
            );
            effects.push(Effect::Emit { event: AppEvent::PeerUpdated { peer } });
        },
    }
    effects
}

/// Whether `after` is `before` with the peer bound to the address that it
/// was heard from, and nothing else changed.
pub open spec fn announced(before: SignalingServer, after: SignalingServer, peer: PeerInfo) -> bool {
    &&& after.peers().dom() == before.peers().dom().insert(peer.device_id@)
    &&& forall|other: Seq<char>|
        other != peer.device_id@ && before.peers().contains_key(other) ==> after.peers()[other]
            == before.peers()[other]
    &&& after.binding(peer.device_id@) == Some((peer.ip_address@, peer.port))
}

fn bind_announced(signaling: &mut SignalingServer, peer: &PeerInfo)
    requires
        old(signaling).wf(),
    ensures
        final(signaling).wf(),
        final(signaling).device() == old(signaling).device(),
        final(signaling).ready() == old(signaling).ready(),
        final(signaling).running() == old(signaling).running(),
        announced(*old(signaling), *final(signaling), *peer),
{
    signaling.register_peer(
        peer.device_id.as_str(),
        PeerAddress { ip: peer.ip_address.clone(), port: peer.port },
    );
}

/// Finds where a message for `peer_id` goes. A peer that the signaling bus
/// does not know is looked up in discovery and, if it is found there, bound
/// to the address it was heard from; the destination is then that address.
pub fn relay_destination(
    signaling: &mut SignalingServer,
    discovery: &DiscoveryManager,
    peer_id: &str,
    message: &SignalingMessage,
) -> (destination: Result<PeerAddress, RelayError>)
    requires
        old(signaling).wf(),
        discovery.wf(),
    ensures
        final(signaling).wf(),
        final(signaling).device() == old(signaling).device(),
        final(signaling).ready() == old(signaling).ready(),
        final(signaling).running() == old(signaling).running(),
        if !old(signaling).ready() {
            destination == Err::<PeerAddress, RelayError>(RelayError::SocketNotInitialized)
                && final(signaling).peers() == old(signaling).peers()
        } else if old(signaling).peers().contains_key(peer_id@) {
            &&& destination matches Ok(address)
            &&& Some(address@) == old(signaling).binding(peer_id@)
            &&& final(signaling).peers() == old(signaling).peers()
        } else if discovery.peers().contains_key(peer_id@) {
            let known = discovery.peers()[peer_id@];
            &&& destination matches Ok(address)
            &&& address@ == (known.ip_address@, known.port)
            &&& final(signaling).binding(peer_id@) == Some(address@)
            &&& final(signaling).peers().dom() == old(signaling).peers().dom().insert(peer_id@)
            &&& forall|other: Seq<char>|
                other != peer_id@ && old(signaling).peers().contains_key(other) ==> final(signaling).peers()[other] == old(signaling).peers()[other]
        } else {
            destination == Err::<PeerAddress, RelayError>(RelayError::PeerNotFound) && final(signaling).peers() == old(signaling).peers()
        },
{
    match signaling.send_message(peer_id, message) {
        Ok(address) => Ok(address),
        Err(SignalingError::SocketNotInitialized) => Err(RelayError::SocketNotInitialized),
        Err(SignalingError::PeerNotFound) => match discovery.get_peer(peer_id) {
            Some(known) => {
                let address = PeerAddress { ip: known.ip_address, port: known.port };
                signaling.register_peer(peer_id, address.clone());
                Ok(address)
            },
            None => Err(RelayError::PeerNotFound),
        },
    }
}

/// The chat message that carries a text to a peer. A message without type
/// is a text message.
pub fn relay_chat_message(
    device_id: &str,
    peer_id: &str,
    message_id: String,
    content: String,
    message_type: Option<String>,
    sender_name: String,
    now: String,
) -> (message: SignalingMessage)
    ensures
        message matches SignalingMessage::ChatMessage {
            from,
            to,
            id,
            content: c,
            message_type: t,
            sender_name: n,
            timestamp,
        } && from@ == device_id@ && to@ == peer_id@ && id == message_id && c == content && t@
            == (match message_type {
            Some(kind) => kind@,
            None => "text"@,
        }) && n == sender_name && timestamp == now,
{
    SignalingMessage::ChatMessage {
        from: String::from_str(device_id),
        to: String::from_str(peer_id),
        id: message_id,
        content,
        message_type: match message_type {
            Some(kind) => kind,
            None => String::from_str("text"),
        },
        sender_name,
        timestamp: now,
    }
}

/// The identifiers among `ids`, in order, that are neither `skip_a` nor
/// `skip_b`.
pub open spec fn others(ids: Seq<String>, skip_a: Seq<char>, skip_b: Seq<char>) -> Seq<Seq<char>>
    decreases ids.len(),
{
    if ids.len() == 0 {
        Seq::empty()
    } else {
        let rest = others(ids.drop_last(), skip_a, skip_b);
        if ids.last()@ != skip_a && ids.last()@ != skip_b {
            rest.push(ids.last()@)
        } else {
            rest
        }
    }
}

/// The identifiers among `ids`, in order, that are neither `skip_a` nor
/// `skip_b`.
pub fn recipients(ids: &Vec<String>, skip_a: &str, skip_b: &str) -> (kept: Vec<String>)
    ensures
        kept@.len() == others(ids@, skip_a@, skip_b@).len(),
        forall|k: int|
            0 <= k < kept@.len() ==> (#[trigger] kept@[k])@ == others(ids@, skip_a@, skip_b@)[k],
{
    let mut kept: Vec<String> = Vec::new();
    let mut i: usize = 0;
    proof {
        assert(ids@.take(0) =~= Seq::<String>::empty());
    }
    while i < ids.len()
        invariant
            i <= ids.len(),
            kept@.len() == others(ids@.take(i as int), skip_a@, skip_b@).len(),
            forall|k: int|
                0 <= k < kept@.len() ==> (#[trigger] kept@[k])@ == others(
                    ids@.take(i as int),
                    skip_a@,
                    skip_b@,
                )[k],
        decreases ids.len() - i,
    {
        proof {
            assert(ids@.take(i + 1).drop_last() =~= ids@.take(i as int));
            assert(ids@.take(i + 1).last() == ids@[i as int]);
        }
        if !same_text(ids[i].as_str(), skip_a) && !same_text(ids[i].as_str(), skip_b) {
            kept.push(ids[i].clone());
        }
        i += 1;
    }
    proof {
        assert(ids@.take(ids.len() as int) =~= ids@);
    }
    kept
}

/// The identifiers of the members of a group, in order.
pub fn member_ids_of(members: &Vec<GroupMember>) -> (ids: Vec<String>)
    ensures
        ids@.len() == members@.len(),
        forall|k: int| 0 <= k < ids@.len() ==> (#[trigger] ids@[k]) == members@[k].user_id,
{
    let mut ids: Vec<String> = Vec::new();
    let mut i: usize = 0;
    while i < members.len()
        invariant
            i <= members.len(),
            ids@.len() == i,
            forall|k: int| 0 <= k < i ==> (#[trigger] ids@[k]) == members@[k].user_id,
        decreases members.len() - i,
    {
        ids.push(members[i].user_id.clone());
        i += 1;
    }
    ids
}

/// The names of the members of a group, in order.
pub fn member_names_of(members: &Vec<GroupMember>) -> (names: Vec<String>)
    ensures
        names@.len() == members@.len(),
        forall|k: int| 0 <= k < names@.len() ==> (#[trigger] names@[k]) == members@[k].username,
{
    let mut names: Vec<String> = Vec::new();
    let mut i: usize = 0;
    while i < members.len()
        invariant
            i <= members.len(),
            names@.len() == i,
            forall|k: int| 0 <= k < i ==> (#[trigger] names@[k]) == members@[k].username,
        decreases members.len() - i,
    {
        names.push(members[i].username.clone());
        i += 1;
    }
    names
}

fn copy_texts(texts: &Vec<String>) -> (copy: Vec<String>)
    ensures
        copy@ == texts@,
{
    let mut copy: Vec<String> = Vec::new();
    let mut i: usize = 0;
    while i < texts.len()
        invariant
            i <= texts.len(),
            copy@ == texts@.take(i as int),
        decreases texts.len() - i,
    {
        copy.push(texts[i].clone());
        i += 1;
        assert(copy@ =~= texts@.take(i as int));
    }
    assert(texts@.take(texts.len() as int) =~= texts@);
    copy
}

/// Whether a message shares a group with one of its members.
pub open spec fn shares_group(
    message: SignalingMessage,
    device_id: Seq<char>,
    recipient: Seq<char>,
    group: Group,
    member_ids: Seq<String>,
    member_names: Seq<String>,
) -> bool {
    message matches SignalingMessage::GroupCreated {
        from,
        to,
        id,
        name,
        member_ids: ids,
        member_names: names,
        created_at,
    } && from@ == device_id && to@ == recipient && id == group.id && name == group.name && ids@
        == member_ids && names@ == member_names && created_at == group.created_at
}

/// The message that shares a group with `recipient`.
pub fn group_invitation(
    device_id: &str,
    recipient: &str,
    group: &Group,
    member_ids: &Vec<String>,
    member_names: &Vec<String>,
) -> (message: SignalingMessage)
    ensures
        shares_group(message, device_id@, recipient@, *group, member_ids@, member_names@),
{
    SignalingMessage::GroupCreated {
        from: String::from_str(device_id),
        to: String::from_str(recipient),
        id: group.id.clone(),
        name: group.name.clone(),
        member_ids: copy_texts(member_ids),
        member_names: copy_texts(member_names),
        created_at: group.created_at.clone(),
    }
}

/// What the user interface gives to create a group.
#[derive(Debug)]
pub struct CreateGroupInput {
    pub name: String,
    pub member_ids: Vec<String>,
    pub member_names: Vec<String>,
}

/// A group to create: its row, the rows of its members, and the messages
/// that share it with the members.
#[derive(Debug)]
pub struct GroupPlan {
    pub group: Group,
    pub members: Vec<GroupMember>,
    pub notices: Vec<SignalingMessage>,
}

/// The smaller of two lengths.
pub open spec fn shorter(a: int, b: int) -> int {
    if a <= b {
        a
    } else {
        b
    }
}

/// Plans a group of the owner of this device. The owner is its
/// administrator; each identifier that comes with a name is a member; the
/// group is shared, with the full lists of identifiers and names, the
/// owner's first, with every identifier given except the owner's own.
pub fn create_group(
    device_id: &str,
    local_username: &str,
    input: &CreateGroupInput,
    group_id: String,
    now: &str,
) -> (plan: GroupPlan)
    ensures
        group_row(plan.group, group_id@, input.name@, device_id@, Some("#4f46e5"@), now@),
        plan.members@.len() == 1 + shorter(
            input.member_ids@.len() as int,
            input.member_names@.len() as int,
        ),
        member_row(plan.members@[0], group_id@, device_id@, local_username@, "admin"@, now@),
        forall|i: int|
            1 <= i < plan.members@.len() ==> member_row(
                #[trigger] plan.members@[i],
                group_id@,
                input.member_ids@[i - 1]@,
                input.member_names@[i - 1]@,
                "member"@,
                now@,
            ),
        plan.notices@.len() == others(input.member_ids@, device_id@, device_id@).len(),
        forall|k: int|
            0 <= k < plan.notices@.len() ==> ((#[trigger] plan.notices@[k]) matches SignalingMessage::GroupCreated {
                from,
                to,
                id,
                name,
                member_ids,
                member_names,
                created_at,
            } && from@ == device_id@ && to@ == others(input.member_ids@, device_id@, device_id@)[k]
                && id@ == group_id@ && name@ == input.name@ && created_at@ == now@
                && member_ids@.len() == 1 + input.member_ids@.len() && member_ids@[0]@
                == device_id@ && member_ids@.skip(1) == input.member_ids@ && member_names@.len()
                == 1 + input.member_names@.len() && member_names@[0]@ == local_username@
                && member_names@.skip(1) == input.member_names@),
{
    let group = Group {
        id: group_id,
        name: input.name.clone(),
        created_by: String::from_str(device_id),
        avatar_color: Some(String::from_str("#4f46e5")),
        created_at: String::from_str(now),
    };
    let mut members: Vec<GroupMember> = Vec::new();
    members.push(
        GroupMember {
            group_id: group.id.clone(),
            user_id: String::from_str(device_id),
            username: String::from_str(local_username),
            role: String::from_str("admin"),
            joined_at: String::from_str(now),
        },
    );
    let mut i: usize = 0;
    while i < input.member_ids.len() && i < input.member_names.len()
        invariant
            i <= input.member_ids.len(),
            i <= input.member_names.len(),
            members@.len() == i + 1,
            member_row(members@[0], group.id@, device_id@, local_username@, "admin"@, now@),
            forall|k: int|
                1 <= k < members@.len() ==> member_row(
                    #[trigger] members@[k],
                    group.id@,
                    input.member_ids@[k - 1]@,
                    input.member_names@[k - 1]@,
                    "member"@,
                    now@,
                ),
        decreases input.member_ids.len() - i,
    {
        members.push(
            GroupMember {
                group_id: group.id.clone(),
                user_id: input.member_ids[i].clone(),
                username: input.member_names[i].clone(),
                role: String::from_str("member"),
                joined_at: String::from_str(now),
            },
        );
        i += 1;
    }
    let mut all_ids: Vec<String> = Vec::new();
    all_ids.push(String::from_str(device_id));
    let mut rest_ids = copy_texts(&input.member_ids);
    all_ids.append(&mut rest_ids);
    let mut all_names: Vec<String> = Vec::new();
    all_names.push(String::from_str(local_username));
    let mut rest_names = copy_texts(&input.member_names);
    all_names.append(&mut rest_names);
    proof {
        assert(all_ids@.skip(1) =~= input.member_ids@);
        assert(all_names@.skip(1) =~= input.member_names@);
    }
    let targets = recipients(&input.member_ids, device_id, device_id);
    let mut notices: Vec<SignalingMessage> = Vec::new();
    let mut k: usize = 0;
    while k < targets.len()
        invariant
            k <= targets.len(),
            notices@.len() == k,
            forall|j: int|
                0 <= j < k ==> shares_group(
                    #[trigger] notices@[j],
                    device_id@,
                    targets@[j]@,
                    group,
                    all_ids@,
                    all_names@,
                ),
        decreases targets.len() - k,
    {
        notices.push(group_invitation(device_id, targets[k].as_str(), &group, &all_ids, &all_names));
        k += 1;
    }
    proof {
        assert forall|j: int| 0 <= j < notices@.len() implies ((#[trigger] notices@[j]) matches SignalingMessage::GroupCreated {
            from,
            to,
            id,
            name,
            member_ids,
            member_names,
            created_at,
        } && from@ == device_id@ && to@ == others(input.member_ids@, device_id@, device_id@)[j]
            && id@ == group.id@ && name@ == input.name@ && created_at@ == now@
            && member_ids@.len() == 1 + input.member_ids@.len() && member_ids@[0]@ == device_id@
            && member_ids@.skip(1) == input.member_ids@ && member_names@.len() == 1
            + input.member_names@.len() && member_names@[0]@ == local_username@
            && member_names@.skip(1) == input.member_names@) by {
            assert(shares_group(
                notices@[j],
                device_id@,
                targets@[j]@,
                group,
                all_ids@,
                all_names@,
            ));
        }
    }
    GroupPlan { group, members, notices }
}

/// What the user interface gives to send a message to a group.
#[derive(Debug)]
pub struct SendGroupMsgInput {
    pub group_id: String,
    pub content: String,
    pub message_type: Option<String>,
}

/// The row for a message of the owner of this device to a group. A message
/// without type is a text message.
pub fn send_group_message(
    device_id: &str,
    sender_name: String,
    input: SendGroupMsgInput,
    id: String,
    now: String,
) -> (message: GroupMessage)
    ensures
        message.id == id,
        message.group_id == input.group_id,
        message.sender_id@ == device_id@,
        message.sender_name == sender_name,
        message.content == input.content,
        message.message_type@ == (match input.message_type {
            Some(kind) => kind@,
            None => "text"@,
        }),
        message.created_at == now,
{
    GroupMessage {
        id,
        group_id: input.group_id,
        sender_id: String::from_str(device_id),
        sender_name,
        content: input.content,
        message_type: match input.message_type {
            Some(kind) => kind,
            None => String::from_str("text"),
        },
        created_at: now,
    }
}

/// Whether a message carries a group message to one member.
pub open spec fn carries_group_message(
    message: SignalingMessage,
    device_id: Seq<char>,
    recipient: Seq<char>,
    stored: GroupMessage,
) -> bool {
    message matches SignalingMessage::GroupChatMessage {
        from,
        to,
        group_id,
        id,
        content,
        message_type,
        sender_name,
        timestamp,
    } && from@ == device_id && to@ == recipient && group_id == stored.group_id && id == stored.id
        && content == stored.content && message_type == stored.message_type && sender_name
        == stored.sender_name && timestamp == stored.created_at
}

/// The messages that carry a group message to the members of the group:
/// one for each member but the owner of this device, in the order of the
/// members.
pub fn group_fanout(device_id: &str, message: &GroupMessage, members: &Vec<GroupMember>) -> (
notices: Vec<SignalingMessage>)
    ensures
        ({
            let targets = others(member_ids_seq(members@), device_id@, device_id@);
            &&& notices@.len() == targets.len()
            &&& forall|k: int|
                0 <= k < notices@.len() ==> carries_group_message(
                    #[trigger] notices@[k],
                    device_id@,
                    targets[k],
                    *message,
                )
        }),
{
    let ids = member_ids_of(members);
    assert(ids@ =~= member_ids_seq(members@));
    let targets = recipients(&ids, device_id, device_id);
    let mut notices: Vec<SignalingMessage> = Vec::new();
    let mut k: usize = 0;
    while k < targets.len()
        invariant
            k <= targets.len(),
            notices@.len() == k,
            forall|j: int|
                0 <= j < k ==> carries_group_message(
                    #[trigger] notices@[j],
                    device_id@,
                    targets@[j]@,
                    *message,
                ),
        decreases targets.len() - k,
    {
        notices.push(
            SignalingMessage::GroupChatMessage {
                from: String::from_str(device_id),
                to: targets[k].clone(),
                group_id: message.group_id.clone(),
                id: message.id.clone(),
                content: message.content.clone(),
                message_type: message.message_type.clone(),
                sender_name: message.sender_name.clone(),
                timestamp: message.created_at.clone(),
            },
        );
        k += 1;
    }
    notices
}

/// The identifiers of the members of a group, in order.
pub open spec fn member_ids_seq(members: Seq<GroupMember>) -> Seq<String> {
    members.map_values(|m: GroupMember| m.user_id)
}

/// The row for a user who is added to a group as an ordinary member.
pub fn add_group_member(group_id: &str, user_id: &str, username: &str, now: &str) -> (member:
    GroupMember)
    ensures
        member_row(member, group_id@, user_id@, username@, "member"@, now@),
{
    GroupMember {
        group_id: String::from_str(group_id),
        user_id: String::from_str(user_id),
        username: String::from_str(username),
        role: String::from_str("member"),
        joined_at: String::from_str(now),
    }
}

/// The position of the group of this identifier among `groups`.
pub fn find_group(groups: &Vec<Group>, group_id: &str) -> (found: Option<usize>)
    ensures
        match found {
            Some(i) => i < groups@.len() && groups@[i as int].id@ == group_id@ && forall|j: int|
                0 <= j < i ==> groups@[j].id@ != group_id@,
            None => forall|j: int| 0 <= j < groups@.len() ==> groups@[j].id@ != group_id@,
        },
{
    let mut i: usize = 0;
    while i < groups.len()
        invariant
            i <= groups.len(),
            forall|j: int| 0 <= j < i ==> groups@[j].id@ != group_id@,
        decreases groups.len() - i,
    {
        if same_text(groups[i].id.as_str(), group_id) {
            return Some(i);
        }
        i += 1;
    }
    None
}

/// The messages that tell the members of a group of a new member: one for
/// each member but the owner of this device and the new member.
pub fn member_added_notices(
    device_id: &str,
    group_id: &str,
    user_id: &str,
    username: &str,
    members: &Vec<GroupMember>,
) -> (notices: Vec<SignalingMessage>)
    ensures
        ({
            let targets = others(member_ids_seq(members@), device_id@, user_id@);
            &&& notices@.len() == targets.len()
            &&& forall|k: int|
                0 <= k < notices@.len() ==> ((#[trigger] notices@[k]) matches SignalingMessage::GroupMemberAdded {
                    from,
                    to,
                    group_id: g,
                    user_id: u,
                    username: n,
                } && from@ == device_id@ && to@ == targets[k] && g@ == group_id@ && u@
                    == user_id@ && n@ == username@)
        }),
{
    let ids = member_ids_of(members);
    assert(ids@ =~= member_ids_seq(members@));
    let targets = recipients(&ids, device_id, user_id);
    let mut notices: Vec<SignalingMessage> = Vec::new();
    let mut k: usize = 0;
    while k < targets.len()
        invariant
            k <= targets.len(),
            notices@.len() == k,
            forall|j: int|
                0 <= j < k ==> ((#[trigger] notices@[j]) matches SignalingMessage::GroupMemberAdded {
                    from,
                    to,
                    group_id: g,
                    user_id: u,
                    username: n,
                } && from@ == device_id@ && to@ == targets@[j]@ && g@ == group_id@ && u@
                    == user_id@ && n@ == username@),
        decreases targets.len() - k,
    {
        notices.push(
            SignalingMessage::GroupMemberAdded {
                from: String::from_str(device_id),
                to: targets[k].clone(),
                group_id: String::from_str(group_id),
                user_id: String::from_str(user_id),
                username: String::from_str(username),
            },
        );
        k += 1;
    }
    notices
}

/// The messages that tell the members of a group that a member has left:
/// one for each who was a member before but the owner of this device and
/// the one who left.
pub fn remove_group_member(
    device_id: &str,
    group_id: &str,
    user_id: &str,
    members_before: &Vec<GroupMember>,
) -> (notices: Vec<SignalingMessage>)
    ensures
        ({
            let targets = others(member_ids_seq(members_before@), device_id@, user_id@);
            &&& notices@.len() == targets.len()
            &&& forall|k: int|
                0 <= k < notices@.len() ==> ((#[trigger] notices@[k]) matches SignalingMessage::GroupMemberRemoved {
                    from,
                    to,
                    group_id: g,
                    user_id: u,
                } && from@ == device_id@ && to@ == targets[k] && g@ == group_id@ && u@
                    == user_id@)
        }),
{
    let ids = member_ids_of(members_before);
    assert(ids@ =~= member_ids_seq(members_before@));
    let targets = recipients(&ids, device_id, user_id);
    let mut notices: Vec<SignalingMessage> = Vec::new();
    let mut k: usize = 0;
    while k < targets.len()
        invariant
            k <= targets.len(),
            notices@.len() == k,
            forall|j: int|
                0 <= j < k ==> ((#[trigger] notices@[j]) matches SignalingMessage::GroupMemberRemoved {
                    from,
                    to,
                    group_id: g,
                    user_id: u,
                } && from@ == device_id@ && to@ == targets@[j]@ && g@ == group_id@ && u@
                    == user_id@),
        decreases targets.len() - k,
    {
        notices.push(
            SignalingMessage::GroupMemberRemoved {
                from: String::from_str(device_id),
                to: targets[k].clone(),
                group_id: String::from_str(group_id),
                user_id: String::from_str(user_id),
            },
        );
        k += 1;
    }
    notices
}

/// Whether a user may be deleted: anyone but the owner of this device. The
/// answer is the event that tells the user interface once it has been done.
pub fn delete_user(device_id: &str, user_id: &str) -> (allowed: Result<AppEvent, CommandError>)
    ensures
        match allowed {
            Ok(event) => user_id@ != device_id@ && (event matches AppEvent::UserDeleted {
                user_id: u,
            } && u@ == user_id@),
            Err(e) => user_id@ == device_id@ && e == CommandError::CannotDeleteLocalUser,
        },
{
    if same_text(user_id, device_id) {
        return Err(CommandError::CannotDeleteLocalUser);
    }
    Ok(AppEvent::UserDeleted { user_id: String::from_str(user_id) })
}

/// The identifier of this device: the stored one, unless none is stored or
/// the stored one is empty; then a fresh one, which is to be stored.
pub fn load_device_id(stored: Option<String>) -> (loaded: (String, bool))
    ensures
        match stored {
            Some(id) => if id@.len() > 0 {
                loaded.0 == id && !loaded.1
            } else {
                loaded.1 && loaded.0@.len() == 32
            },
            None => loaded.1 && loaded.0@.len() == 32,
        },
{
    match stored {
        Some(id) => if id.as_str().is_empty() {
            (generate_device_id(), true)
        } else {
            (id, false)
        },
        None => (generate_device_id(), true),
    }
}

/// When the log file was last written, in seconds since the epoch.
#[derive(Debug, Clone, Copy, PartialEq, Eq, Structural)]
pub struct DevLog {
    pub last_write: u64,
}

/// The line that the log gets for a message at second `ts`.
pub open spec fn log_line(ts: u64, msg: Seq<char>) -> Seq<char> {
    "["@ + decimal_text(ts as nat) + "] [Pingo] "@ + msg
}

/// Makes the log line for a message and says whether it goes to the log
/// file, which takes at most one line per second. The line goes to standard
/// output in any case.
pub fn dev_log(log: &mut DevLog, ts: u64, msg: &str) -> (entry: (String, bool))
    ensures
        entry.0@ == log_line(ts, msg@),
        entry.1 == (ts > old(log).last_write),
        final(log).last_write == if entry.1 {
            ts
        } else {
            old(log).last_write
        },
{
    let mut line = String::from_str("[");
    line.append(decimal(ts).as_str());
    line.append("] [Pingo] ");
    line.append(msg);
    let write = ts > log.last_write;
    if write {
        log.last_write = ts;
    }
    (line, write)
}

/// What the application reports once it is set up.
#[derive(Debug)]
pub struct InitResult {
    pub device_id: String,
    pub public_key: String,
    pub db_path: String,
    pub downloads_path: String,
}

/// The row of the owner of this device as the start of the application
/// leaves it: a new row under the host's name, or "Pingo User" where the
/// host has none; an existing row with the new public key; online and seen
/// now either way.
pub fn init_app(
    existing: Option<User>,
    device_id: &str,
    hostname: Option<String>,
    public_key: &str,
    now: &str,
) -> (user: User)
    ensures
        user.public_key matches Some(key) && key@ == public_key@,
        user.is_online,
        user.last_seen matches Some(seen) && seen@ == now@,
        match existing {
            Some(before) => {
                &&& user.id == before.id
                &&& user.username == before.username
                &&& user.device_id == before.device_id
                &&& user.avatar_path == before.avatar_path
                &&& user.bio == before.bio
                &&& user.designation == before.designation
                &&& user.created_at == before.created_at
            },
            None => {
                &&& user.id@ == device_id@
                &&& user.username@ == (match hostname {
                    Some(name) => name@,
                    None => "Pingo User"@,
                })
                &&& user.device_id@ == device_id@
                &&& user.avatar_path is None
                &&& user.bio matches Some(bio) && bio@.len() == 0
                &&& user.designation matches Some(designation) && designation@.len() == 0
                &&& user.created_at@ == now@
            },
        },
{
    match existing {
        Some(before) => User {
            id: before.id,
            username: before.username,
            device_id: before.device_id,
            public_key: Some(String::from_str(public_key)),
            avatar_path: before.avatar_path,
            bio: before.bio,
            designation: before.designation,
            last_seen: Some(String::from_str(now)),
            is_online: true,
            created_at: before.created_at,
        },
        None => User {
            id: String::from_str(device_id),
            username: match hostname {
                Some(name) => name,
                None => String::from_str("Pingo User"),
            },
            device_id: String::from_str(device_id),
            public_key: Some(String::from_str(public_key)),
            avatar_path: None,
            bio: Some(String::new()),
            designation: Some(String::new()),
            last_seen: Some(String::from_str(now)),
            is_online: true,
            created_at: String::from_str(now),
        },
    }
}

/// What the user interface gives to set up the owner's profile.
#[derive(Debug)]
pub struct CreateUserInput {
    pub username: String,
    pub avatar_path: Option<String>,
    pub bio: Option<String>,
    pub designation: Option<String>,
}

/// What is given, or else what the existing row has.
pub open spec fn given_or_kept(given: Option<String>, kept: Option<String>) -> Option<String> {
    match given {
        Some(value) => Some(value),
        None => kept,
    }
}

/// The row of the owner of this device after a change of profile: what is
/// given replaces what the existing row has, what is not given is kept; the
/// row keeps the time it was created at.
pub fn create_user(
    existing: Option<User>,
    device_id: &str,
    public_key: Option<String>,
    input: CreateUserInput,
    now: &str,
) -> (user: User)
    ensures
        user.id@ == device_id@,
        user.username == input.username,
        user.device_id@ == device_id@,
        user.public_key == public_key,
        user.is_online,
        user.last_seen matches Some(seen) && seen@ == now@,
        match existing {
            Some(before) => {
                &&& user.avatar_path == given_or_kept(input.avatar_path, before.avatar_path)
                &&& user.bio == given_or_kept(input.bio, before.bio)
                &&& user.designation == given_or_kept(input.designation, before.designation)
                &&& user.created_at == before.created_at
            },
            None => {
                &&& user.avatar_path == input.avatar_path
                &&& user.bio == input.bio
                &&& user.designation == input.designation
                &&& user.created_at@ == now@
            },
        },
{
    match existing {
        Some(before) => User {
            id: String::from_str(device_id),
            username: input.username,
            device_id: String::from_str(device_id),
            public_key,
            avatar_path: match input.avatar_path {
                Some(value) => Some(value),
                None => before.avatar_path,
            },
            bio: match input.bio {
                Some(value) => Some(value),
                None => before.bio,
            },
            designation: match input.designation {
                Some(value) => Some(value),
                None => before.designation,
            },
            last_seen: Some(String::from_str(now)),
            is_online: true,
            created_at: before.created_at,
        },
        None => User {
            id: String::from_str(device_id),
            username: input.username,
            device_id: String::from_str(device_id),
            public_key,
            avatar_path: input.avatar_path,
            bio: input.bio,
            designation: input.designation,
            last_seen: Some(String::from_str(now)),
            is_online: true,
            created_at: String::from_str(now),
        },
    }
}

/// The row of the owner of this device with a new avatar.
pub fn save_avatar(user: User, image_data: &str) -> (changed: User)
    ensures
        changed.avatar_path matches Some(avatar) && avatar@ == image_data@,
        changed.id == user.id,
        changed.username == user.username,
        changed.device_id == user.device_id,
        changed.public_key == user.public_key,
        changed.bio == user.bio,
        changed.designation == user.designation,
        changed.last_seen == user.last_seen,
        changed.is_online == user.is_online,
        changed.created_at == user.created_at,
{
    User {
        id: user.id,
        username: user.username,
        device_id: user.device_id,
        public_key: user.public_key,
        avatar_path: Some(String::from_str(image_data)),
        bio: user.bio,
        designation: user.designation,
        last_seen: user.last_seen,
        is_online: user.is_online,
        created_at: user.created_at,
    }
}

/// What the user interface gives to send a message.
#[derive(Debug)]
pub struct SendMessageInput {
    pub receiver_id: String,
    pub content: String,
    pub message_type: Option<String>,
    pub file_path: Option<String>,
}

/// The row for a message of the owner of this device: not read, not
/// delivered. A message without type is a text message.
pub fn send_message(device_id: &str, input: SendMessageInput, id: String, now: String) -> (message:
    Message)
    ensures
        message.id == id,
        message.sender_id@ == device_id@,
        message.receiver_id == input.receiver_id,
        message.content == input.content,
        message.message_type@ == (match input.message_type {
            Some(kind) => kind@,
            None => "text"@,
        }),
        message.file_path == input.file_path,
        !message.is_read,
        !message.is_delivered,
        message.created_at == now,
{
    Message {
        id,
        sender_id: String::from_str(device_id),
        receiver_id: input.receiver_id,
        content: input.content,
        message_type: match input.message_type {
            Some(kind) => kind,
            None => String::from_str("text"),
        },
        file_path: input.file_path,
        is_read: false,
        is_delivered: false,
        created_at: now,
    }
}

/// What the user interface gives to save a note.
#[derive(Debug)]
pub struct SaveNoteInput {
    pub id: String,
    pub title: String,
    pub content: Option<String>,
    pub color: Option<String>,
    pub pinned: Option<bool>,
    pub category: Option<String>,
    pub created_at: Option<String>,
}

/// The row for a note: without content it is empty, without colour it is
/// pale yellow, without pin it is not pinned, without time of creation it
/// is created now; it is changed now.
pub fn save_note(input: SaveNoteInput, now: &str) -> (note: Note)
    ensures
        note.id == input.id,
        note.title == input.title,
        note.content@ == (match input.content {
            Some(content) => content@,
            None => Seq::<char>::empty(),
        }),
        note.color@ == (match input.color {
            Some(color) => color@,
            None => "#fef3c7"@,
        }),
        note.pinned == (match input.pinned {
            Some(pinned) => pinned,
            None => false,
        }),
        note.category == input.category,
        note.created_at@ == (match input.created_at {
            Some(created) => created@,
            None => now@,
        }),
        note.updated_at@ == now@,
{
    Note {
        id: input.id,
        title: input.title,
        content: match input.content {
            Some(content) => content,
            None => String::new(),
        },
        color: match input.color {
            Some(color) => color,
            None => String::from_str("#fef3c7"),
        },
        pinned: match input.pinned {
            Some(pinned) => pinned,
            None => false,
        },
        category: input.category,
        created_at: match input.created_at {
            Some(created) => created,
            None => String::from_str(now),
        },
        updated_at: String::from_str(now),
    }
}

/// How much the application keeps on disk.
#[derive(Debug)]
pub struct StorageStats {
    pub db_path: String,
    pub db_size: u64,
    pub shared_files_path: String,
    pub shared_files_size: u64,
    pub downloads_path: String,
    pub downloads_size: u64,
    pub total_size: u64,
}

/// The sizes that the caller has measured, and their sum.
pub fn get_storage_stats(
    db_path: String,
    db_size: u64,
    shared_files_path: String,
    shared_files_size: u64,
    downloads_path: String,
    downloads_size: u64,
) -> (stats: StorageStats)
    requires
        db_size + shared_files_size + downloads_size <= u64::MAX,
    ensures
        stats.db_path == db_path,
        stats.db_size == db_size,
        stats.shared_files_path == shared_files_path,
        stats.shared_files_size == shared_files_size,
        stats.downloads_path == downloads_path,
        stats.downloads_size == downloads_size,
        stats.total_size == db_size + shared_files_size + downloads_size,
{
    StorageStats {
        db_path,
        db_size,
        shared_files_path,
        shared_files_size,
        downloads_path,
        downloads_size,
        total_size: db_size + shared_files_size + downloads_size,
    }
}

/// Whether a character may stand in the name of a folder as it is.
pub open spec fn folder_char(c: char) -> bool {
    alphanumeric(c) || c == ' ' || c == '-' || c == '_' || c == '.'
}

/// The name of the folder for the files of a user: every character that may
/// not stand in it replaced by an underscore, white space around it removed.
pub open spec fn sanitized(name: Seq<char>) -> Seq<char> {
    trimmed_text(
        name.map_values(
            |c: char|
                if folder_char(c) {
                    c
                } else {
                    '_'
                },
        ),
    )
}

/// The character that stands for `c` in the name of a folder: `c` itself if
/// it is alphanumeric or one of space, hyphen, underscore and dot, else an
/// underscore.
pub fn folder_char_or_underscore(c: char, is_alphanumeric: bool) -> (kept: char)
    ensures
        kept == if is_alphanumeric || c == ' ' || c == '-' || c == '_' || c == '.' {
            c
        } else {
            '_'
        },
{
    if is_alphanumeric || c == ' ' || c == '-' || c == '_' || c == '.' {
        c
    } else {
        '_'
    }
}

/// The name of the folder for the files of a user.
pub fn sanitize_folder_name(name: &str) -> (folder: String)
    ensures
        folder@ == sanitized(name@),
{
    let chars = to_chars(name);
    let mut replaced = String::new();
    let mut i: usize = 0;
    while i < chars.len()
        invariant
            i <= chars.len(),
            chars@ == name@,
            replaced@ == name@.take(i as int).map_values(
                |c: char|
                    if folder_char(c) {
                        c
                    } else {
                        '_'
                    },
            ),
        decreases chars.len() - i,
    {
        let c = chars[i];
        replaced.push(folder_char_or_underscore(c, c.is_alphanumeric()));
        i += 1;
        proof {
            let f = |c: char|
                if folder_char(c) {
                    c
                } else {
                    '_'
                };
            assert(name@.take(i as int) =~= name@.take(i - 1).push(c));
            assert(replaced@ =~= name@.take(i as int).map_values(f));
        }
    }
    assert(name@.take(chars.len() as int) =~= name@);
    String::from_str(replaced.as_str().trim())
}

/// The extension of a file name: what follows its last dot; all of the name
/// where it has no dot.
pub fn ext_from_filename(name: &str) -> (ext: String)
    ensures
        ext@ == last_segment(name@, '.'),
{
    let chars = to_chars(name);
    let from = find_after_last(&chars, '.');
    text_of(&chars, from, chars.len())
}

/// The identifier of the file that a URL offers: its last path segment.
pub fn file_id_of_url(url: &str) -> (file_id: String)
    ensures
        file_id@ == last_segment(url@, '/'),
{
    let chars = to_chars(url);
    let from = find_after_last(&chars, '/');
    text_of(&chars, from, chars.len())
}

/// The folder, within the folder of a sender, for files of a kind.
pub open spec fn kind_folder(file_type: Seq<char>) -> Seq<char> {
    if file_type == "image"@ {
        "images"@
    } else if file_type == "video"@ {
        "videos"@
    } else {
        "files"@
    }
}

/// The folder, within the folder of a sender, for files of a kind.
pub fn type_folder(file_type: &str) -> (folder: &'static str)
    ensures
        folder@ == kind_folder(file_type@),
{
    if same_text(file_type, "image") {
        "images"
    } else if same_text(file_type, "video") {
        "videos"
    } else {
        "files"
    }
}

/// The name under which a downloaded file is kept in the shared directory:
/// its identifier, a dot, and its extension.
pub fn shared_file_name(file_id: &str, ext: &str) -> (name: String)
    ensures
        name@ == file_id@ + seq!['.'] + ext@,
{
    let mut name = String::from_str(file_id);
    name.push('.');
    name.append(ext);
    name
}

/// The percentage that a stage of a download is reported with.
pub open spec fn stage_progress(stage: DownloadStage) -> u8 {
    match stage {
        DownloadStage::Downloading => 0,
        DownloadStage::Cached => 100,
        DownloadStage::Error => 0,
        DownloadStage::Saving => 80,
        DownloadStage::Complete => 100,
    }
}

impl DownloadStage {
    /// The name of the stage as the user interface knows it.
    pub fn name(&self) -> (name: &'static str)
        ensures
            name@ == match *self {
                DownloadStage::Downloading => "downloading"@,
                DownloadStage::Cached => "cached"@,
                DownloadStage::Error => "error"@,
                DownloadStage::Saving => "saving"@,
                DownloadStage::Complete => "complete"@,
            },
    {
        match self {
            DownloadStage::Downloading => "downloading",
            DownloadStage::Cached => "cached",
            DownloadStage::Error => "error",
            DownloadStage::Saving => "saving",
            DownloadStage::Complete => "complete",
        }
    }
}

/// The event that reports a stage of a download. Only the last stage names
/// where the file lies.
pub fn download_progress(
    file_id: &str,
    file_name: &str,
    stage: DownloadStage,
    local_path: Option<String>,
) -> (event: AppEvent)
    ensures
        event matches AppEvent::FileDownloadProgress {
            file_id: f,
            file_name: n,
            stage: s,
            progress,
            local_path: p,
        } && f@ == file_id@ && n@ == file_name@ && s == stage && progress == stage_progress(stage)
            && p == (if stage == DownloadStage::Complete {
            local_path
        } else {
            None
        }),
{
    let progress: u8 = match stage {
        DownloadStage::Downloading => 0,
        DownloadStage::Cached => 100,
        DownloadStage::Error => 0,
        DownloadStage::Saving => 80,
        DownloadStage::Complete => 100,
    };
    AppEvent::FileDownloadProgress {
        file_id: String::from_str(file_id),
        file_name: String::from_str(file_name),
        stage,
        progress,
        local_path: match stage {
            DownloadStage::Complete => local_path,
            _ => None,
        },
    }
}

/// The URL of a file on the media server of this device, as this device
/// itself reaches it.
pub open spec fn local_url(port: u16, file_id: Seq<char>) -> Seq<char> {
    "http://127.0.0.1:"@ + decimal_text(port as nat) + "/file/"@ + file_id
}

/// The URL of a file on the media server of this device.
pub fn local_file_url(port: u16, file_id: &str) -> (url: String)
    ensures
        url@ == local_url(port, file_id@),
{
    let mut url = String::from_str("http://127.0.0.1:");
    url.append(decimal(port as u64).as_str());
    url.append("/file/");
    url.append(file_id);
    url
}

/// The URL of a file on the media server of this device; none before the
/// server has started.
pub fn get_local_file_url(port: u16, file_id: &str) -> (url: Option<String>)
    ensures
        match url {
            Some(u) => port != 0 && u@ == local_url(port, file_id@),
            None => port == 0,
        },
{
    if port == 0 {
        return None;
    }
    Some(local_file_url(port, file_id))
}

/// The URL under which a shared file is offered to peers, with `{IP}` where
/// each peer puts the address it knows this device by.
pub fn store_shared_file(port: u16, file_id: &str) -> (url: String)
    ensures
        url@ == "http://{IP}:"@ + decimal_text(port as nat) + "/file/"@ + file_id@,
{
    let mut url = String::from_str("http://{IP}:");
    url.append(decimal(port as u64).as_str());
    url.append("/file/");
    url.append(file_id);
    url
}

/// The identifier under which the avatar of a device is served.
pub fn avatar_file_id(device_id: &str) -> (file_id: String)
    ensures
        file_id@ == "avatar_"@ + device_id@,
{
    let mut file_id = String::from_str("avatar_");
    file_id.append(device_id);
    file_id
}

/// The name of the file that caches the avatar of a device.
pub fn avatar_file_name(device_id: &str) -> (name: String)
    ensures
        name@ == "user_"@ + device_id@ + ".png"@,
{
    let mut name = String::from_str("user_");
    name.append(device_id);
    name.append(".png");
    name
}

/// Whether a URL points at a media server on this machine.
pub fn is_local_server_url(url: &str) -> (local: bool)
    ensures
        local == (has_prefix(url@, "http://127.0.0.1:"@) || has_prefix(url@, "http://localhost:"@)),
{
    text_starts_with(url, "http://127.0.0.1:") || text_starts_with(url, "http://localhost:")
}

/// What caching the avatar of a peer begins with: the name of the cache
/// file, and whether the URL points at this machine, in which case a cache
/// file that exists is served as it is. Device and URL must be given.
pub fn download_and_cache_avatar(device_id: &str, remote_url: &str) -> (begun: Result<
    (String, bool),
    CommandError,
>)
    ensures
        match begun {
            Ok(plan) => device_id@.len() > 0 && remote_url@.len() > 0 && plan.0@ == "user_"@
                + device_id@ + ".png"@ && plan.1 == (has_prefix(remote_url@, "http://127.0.0.1:"@)
                || has_prefix(remote_url@, "http://localhost:"@)),
            Err(e) => e == CommandError::MissingAvatarSource && (device_id@.len() == 0
                || remote_url@.len() == 0),
        },
{
    if device_id.is_empty() || remote_url.is_empty() {
        return Err(CommandError::MissingAvatarSource);
    }
    Ok((avatar_file_name(device_id), is_local_server_url(remote_url)))
}

/// `s` without every `prefix` that it begins with, one after another.
pub open spec fn without_leading(s: Seq<char>, prefix: Seq<char>) -> Seq<char>
    decreases s.len(),
{
    if prefix.len() > 0 && has_prefix(s, prefix) {
        without_leading(s.skip(prefix.len() as int), prefix)
    } else {
        s
    }
}

/// The path that a file URL or a plain path names: without the scheme
/// `file:///`, or else `file://`, however often it is repeated.
pub open spec fn local_path_of(file_path: Seq<char>) -> Seq<char> {
    if has_prefix(file_path, "file:///"@) {
        without_leading(file_path, "file:///"@)
    } else if has_prefix(file_path, "file://"@) {
        without_leading(file_path, "file://"@)
    } else {
        file_path
    }
}

fn has_prefix_at(chars: &Vec<char>, from: usize, prefix: &Vec<char>) -> (found: bool)
    requires
        from <= chars.len(),
    ensures
        found == has_prefix(chars@.skip(from as int), prefix@),
{
    let ghost rest = chars@.skip(from as int);
    if prefix.len() > chars.len() - from {
        return false;
    }
    let mut k: usize = 0;
    while k < prefix.len()
        invariant
            from <= chars.len(),
            k <= prefix.len() <= chars.len() - from,
            rest == chars@.skip(from as int),
            forall|j: int| 0 <= j < k ==> rest[j] == prefix@[j],
        decreases prefix.len() - k,
    {
        assert(rest[k as int] == chars@[from + k]);
        if chars[from + k] != prefix[k] {
            assert(rest.subrange(0, prefix.len() as int)[k as int] != prefix@[k as int]);
            return false;
        }
        k += 1;
    }
    assert(rest.subrange(0, prefix.len() as int) =~= prefix@);
    true
}

fn strip_repeated(chars: &Vec<char>, prefix: &Vec<char>) -> (rest: String)
    requires
        prefix.len() > 0,
    ensures
        rest@ == without_leading(chars@, prefix@),
{
    let mut from: usize = 0;
    proof {
        assert(chars@.skip(0) =~= chars@);
    }
    while has_prefix_at(chars, from, prefix)
        invariant
            from <= chars.len(),
            prefix.len() > 0,
            without_leading(chars@, prefix@) == without_leading(
                chars@.skip(from as int),
                prefix@,
            ),
        decreases chars.len() - from,
    {
        proof {
            let rest = chars@.skip(from as int);
            assert(rest.skip(prefix.len() as int) =~= chars@.skip(from + prefix.len()));
        }
        from += prefix.len();
    }
    let rest = text_of(chars, from, chars.len());
    assert(rest@ =~= chars@.skip(from as int));
    rest
}

/// The path that a file URL or a plain path names.
pub fn strip_file_scheme(file_path: &str) -> (path: String)
    ensures
        path@ == local_path_of(file_path@),
{
    let chars = to_chars(file_path);
    let long = to_chars("file:///");
    let short = to_chars("file://");
    proof {
        reveal_strlit("file:///");
        reveal_strlit("file://");
    }
    if starts_with(&chars, &long) {
        strip_repeated(&chars, &long)
    } else if starts_with(&chars, &short) {
        strip_repeated(&chars, &short)
    } else {
        String::from_str(file_path)
    }
}

/// The MIME type under which a stored file of a lower-case extension goes
/// into a data URL.
pub open spec fn inline_mime(lowered: Seq<char>) -> Seq<char> {
    if lowered == "png"@ {
        "image/png"@
    } else if lowered == "jpg"@ || lowered == "jpeg"@ {
        "image/jpeg"@
    } else if lowered == "gif"@ {
        "image/gif"@
    } else if lowered == "webp"@ {
        "image/webp"@
    } else if lowered == "mp4"@ {
        "video/mp4"@
    } else if lowered == "webm"@ {
        "video/webm"@
    } else {
        "application/octet-stream"@
    }
}

/// The MIME type under which a stored file of a lower-case extension goes
/// into a data URL.
pub fn inline_mime_of(lowered: &str) -> (mime: &'static str)
    ensures
        mime@ == inline_mime(lowered@),
{
    if same_text(lowered, "png") {
        "image/png"
    } else if same_text(lowered, "jpg") || same_text(lowered, "jpeg") {
        "image/jpeg"
    } else if same_text(lowered, "gif") {
        "image/gif"
    } else if same_text(lowered, "webp") {
        "image/webp"
    } else if same_text(lowered, "mp4") {
        "video/mp4"
    } else if same_text(lowered, "webm") {
        "video/webm"
    } else {
        "application/octet-stream"
    }
}

/// The bytes of a stored file as a data URL. `extension` is the extension
/// of the file, `bin` where it has none; its case does not count.
pub fn read_file_as_data_url(extension: &str, data: &[u8]) -> (url: String)
    requires
        data@.len() <= isize::MAX,
    ensures
        url@ == "data:"@ + inline_mime(lowercase_text(extension@)) + ";base64,"@ + base64_text(
            data@,
        ),
{
    let lowered = extension.to_lowercase();
    let mut url = String::from_str("data:");
    url.append(inline_mime_of(lowered.as_str()));
    url.append(";base64,");
    url.append(base64_encode(data).as_str());
    url
}

/// Where a file that a peer offers goes on this device.
#[derive(Debug)]
pub struct DownloadPlan {
    /// The identifier of the file: the last path segment of its URL.
    pub file_id: String,
    /// The name under which the file is kept for serving.
    pub shared_name: String,
    /// The folder of the sender within the downloads directory.
    pub sender_folder: String,
    /// The folder for files of this kind within the sender's folder.
    pub type_folder: &'static str,
}

/// Plans the download of a file that a peer offers at `url`: it is kept
/// for serving as `<id>.<extension>` and filed as
/// `<sender>/<images|videos|files>/<file name>`.
pub fn auto_download_file(url: &str, sender_name: &str, file_name: &str, file_type: &str) -> (plan:
    DownloadPlan)
    ensures
        plan.file_id@ == last_segment(url@, '/'),
        plan.shared_name@ == last_segment(url@, '/') + seq!['.'] + last_segment(file_name@, '.'),
        plan.sender_folder@ == sanitized(sender_name@),
        plan.type_folder@ == kind_folder(file_type@),
{
    let file_id = file_id_of_url(url);
    let ext = ext_from_filename(file_name);
    let shared_name = shared_file_name(file_id.as_str(), ext.as_str());
    DownloadPlan {
        file_id,
        shared_name,
        sender_folder: sanitize_folder_name(sender_name),
        type_folder: type_folder(file_type),
    }
}

/// The two folders, one within the other, in which a file of this sender
/// and kind lies if it has been downloaded.
pub fn check_file_downloaded(sender_name: &str, file_type: &str) -> (folders: (String, &'static str))
    ensures
        folders.0@ == sanitized(sender_name@),
        folders.1@ == kind_folder(file_type@),
{
    (sanitize_folder_name(sender_name), type_folder(file_type))
}

/// How a local avatar file is served.
#[derive(Debug)]
pub struct AvatarPlan {
    /// The path of the file, without a `file:` scheme.
    pub path: String,
    /// The identifier under which the avatar is served.
    pub file_id: String,
    /// The name to serve it under where the path has no file name.
    pub fallback_name: String,
}

/// Plans the serving of an avatar that lies on this machine.
pub fn register_local_avatar(device_id: &str, file_path: &str) -> (plan: AvatarPlan)
    ensures
        plan.path@ == local_path_of(file_path@),
        plan.file_id@ == "avatar_"@ + device_id@,
        plan.fallback_name@ == "user_"@ + device_id@ + ".png"@,
{
    AvatarPlan {
        path: strip_file_scheme(file_path),
        file_id: avatar_file_id(device_id),
        fallback_name: avatar_file_name(device_id),
    }
}

} // verus!
