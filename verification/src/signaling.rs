//! The signaling bus: the catalog of messages, the table that binds each
//! peer to the address it was first seen at, and the rule that a message
//! claiming a bound peer's name from another address is dropped.
//!
//! Sockets and the JSON on the wire are the caller's; this module decides
//! what is forwarded, what is bound, and where a message goes.

use crate::table::Table;
use crate::text::same_text;
use vstd::prelude::*;

verus! {

/// A JSON value of `serde_json`, carried through unread.
#[verifier::external_type_specification]
#[verifier::external_body]
pub struct ExJsonValue(serde_json::Value);

/// `Clone::clone` of `serde_json::Value`, which the crate derives: the copy
/// is the value again.
pub assume_specification[ <serde_json::Value as Clone>::clone ](
    value: &serde_json::Value,
) -> (copy: serde_json::Value)
    ensures
        copy == *value,
;

/// The messages of the signaling bus. On the wire each is a JSON object whose
/// field `type` holds the variant's name.
#[derive(Debug, Clone)]
pub enum SignalingMessage {
    /// SDP offer from the initiator.
    Offer { from: String, to: String, sdp: String, session_id: String },
    /// SDP answer from the responder.
    Answer { from: String, to: String, sdp: String, session_id: String },
    /// ICE candidate.
    IceCandidate { from: String, to: String, candidate: String, sdp_mid: Option<String>, sdp_mline_index: Option<u32>, session_id: String },
    /// Request to connect.
    ConnectionRequest { from: String, to: String, session_id: String },
    /// The connection was accepted.
    ConnectionAccepted { from: String, to: String, session_id: String },
    /// The connection was rejected.
    ConnectionRejected { from: String, to: String, session_id: String, reason: String },
    /// Invitation to a screen share.
    ScreenShareInvite { from: String, to: String, session_id: String },
    /// Answer to a screen share invitation.
    ScreenShareResponse { from: String, to: String, session_id: String, accepted: bool },
    /// The host ended the screen share.
    ScreenShareEnded { from: String, to: String, session_id: String },
    /// Offer of a file.
    FileTransferRequest { from: String, to: String, file_name: String, file_size: u64, file_type: String, transfer_id: String },
    /// Answer to the offer of a file.
    FileTransferResponse { from: String, to: String, transfer_id: String, accepted: bool },
    /// Keep-alive probe.
    Ping { from: String, timestamp: u64 },
    /// Answer to a probe.
    Pong { from: String, timestamp: u64 },
    /// A direct chat message.
    ChatMessage { from: String, to: String, id: String, content: String, message_type: String, sender_name: String, timestamp: String },
    /// The receiver has the chat message.
    DeliveryAck { from: String, to: String, message_id: String },
    /// A peer changed its profile.
    ProfileUpdate { from: String, to: String, username: String, avatar_url: Option<String>, avatar_file_id: Option<String>, avatar_file_port: Option<u16>, bio: Option<String>, designation: Option<String> },
    /// A group was created or shared.
    GroupCreated { from: String, to: String, id: String, name: String, member_ids: Vec<String>, member_names: Vec<String>, created_at: String },
    /// A chat message to a group.
    GroupChatMessage { from: String, to: String, group_id: String, id: String, content: String, message_type: String, sender_name: String, timestamp: String },
    /// A chat message within a meeting; never stored.
    MeetingChatMessage { from: String, to: String, session_id: String, id: String, content: String, sender_name: String, timestamp: String },
    /// A member joined a group.
    GroupMemberAdded { from: String, to: String, group_id: String, user_id: String, username: String },
    /// A member left a group.
    GroupMemberRemoved { from: String, to: String, group_id: String, user_id: String },
    /// Invitation to a meeting.
    MeetingInvite { from: String, to: String, meeting_id: String, host_name: String },
    /// Answer to a meeting invitation.
    MeetingInviteResponse { from: String, to: String, meeting_id: String, accepted: bool, username: Option<String> },
    /// SDP offer within a meeting.
    MeetingOffer { from: String, to: String, meeting_id: String, sdp: String },
    /// SDP answer within a meeting.
    MeetingAnswer { from: String, to: String, meeting_id: String, sdp: String },
    /// ICE candidate within a meeting.
    MeetingIceCandidate { from: String, to: String, meeting_id: String, candidate: String, sdp_mid: Option<String>, sdp_mline_index: Option<u32> },
    /// Chat payload within a meeting, carried as it came.
    MeetingChat { from: String, to: String, meeting_id: String, chat: serde_json::Value },
    /// A participant left the meeting.
    MeetingLeave { from: String, to: String, meeting_id: String },
    /// The host ended the meeting.
    MeetingEnded { from: String, to: String, meeting_id: String },
    /// Screen share status within a meeting.
    MeetingScreenShare { from: String, to: String, meeting_id: String, sharing: bool },
    /// Invitation to a screen share within a meeting.
    MeetingScreenShareInvite { from: String, to: String, meeting_id: String, host_name: String },
    /// Request to come back into a meeting.
    MeetingRejoinRequest { from: String, to: String, meeting_id: String, username: String },
    /// The participants of a meeting, for one who comes back.
    MeetingParticipantList { from: String, to: String, meeting_id: String, participants: Vec<String> },
}

impl SignalingMessage {
    /// The device that the message claims to come from.
    pub open spec fn sender(&self) -> Seq<char> {
        match *self {
            SignalingMessage::Offer { from, .. } => from@,
            SignalingMessage::Answer { from, .. } => from@,
            SignalingMessage::IceCandidate { from, .. } => from@,
            SignalingMessage::ConnectionRequest { from, .. } => from@,
            SignalingMessage::ConnectionAccepted { from, .. } => from@,
            SignalingMessage::ConnectionRejected { from, .. } => from@,
            SignalingMessage::ScreenShareInvite { from, .. } => from@,
            SignalingMessage::ScreenShareResponse { from, .. } => from@,
            SignalingMessage::ScreenShareEnded { from, .. } => from@,
            SignalingMessage::FileTransferRequest { from, .. } => from@,
            SignalingMessage::FileTransferResponse { from, .. } => from@,
            SignalingMessage::Ping { from, .. } => from@,
            SignalingMessage::Pong { from, .. } => from@,
            SignalingMessage::ChatMessage { from, .. } => from@,
            SignalingMessage::DeliveryAck { from, .. } => from@,
            SignalingMessage::ProfileUpdate { from, .. } => from@,
            SignalingMessage::GroupCreated { from, .. } => from@,
            SignalingMessage::GroupChatMessage { from, .. } => from@,
            SignalingMessage::MeetingChatMessage { from, .. } => from@,
            SignalingMessage::GroupMemberAdded { from, .. } => from@,
            SignalingMessage::GroupMemberRemoved { from, .. } => from@,
            SignalingMessage::MeetingInvite { from, .. } => from@,
            SignalingMessage::MeetingInviteResponse { from, .. } => from@,
            SignalingMessage::MeetingOffer { from, .. } => from@,
            SignalingMessage::MeetingAnswer { from, .. } => from@,
            SignalingMessage::MeetingIceCandidate { from, .. } => from@,
            SignalingMessage::MeetingChat { from, .. } => from@,
            SignalingMessage::MeetingLeave { from, .. } => from@,
            SignalingMessage::MeetingEnded { from, .. } => from@,
            SignalingMessage::MeetingScreenShare { from, .. } => from@,
            SignalingMessage::MeetingScreenShareInvite { from, .. } => from@,
            SignalingMessage::MeetingRejoinRequest { from, .. } => from@,
            SignalingMessage::MeetingParticipantList { from, .. } => from@,
        }
    }

    /// The device that the message is meant for, where it names one.
    pub open spec fn recipient(&self) -> Option<Seq<char>> {
        match *self {
            SignalingMessage::Offer { to, .. } => Some(to@),
            SignalingMessage::Answer { to, .. } => Some(to@),
            SignalingMessage::IceCandidate { to, .. } => Some(to@),
            SignalingMessage::ConnectionRequest { to, .. } => Some(to@),
            SignalingMessage::ConnectionAccepted { to, .. } => Some(to@),
            SignalingMessage::ConnectionRejected { to, .. } => Some(to@),
            SignalingMessage::ScreenShareInvite { to, .. } => Some(to@),
            SignalingMessage::ScreenShareResponse { to, .. } => Some(to@),
            SignalingMessage::ScreenShareEnded { to, .. } => Some(to@),
            SignalingMessage::FileTransferRequest { to, .. } => Some(to@),
            SignalingMessage::FileTransferResponse { to, .. } => Some(to@),
            SignalingMessage::Ping { .. } => None,
            SignalingMessage::Pong { .. } => None,
            SignalingMessage::ChatMessage { to, .. } => Some(to@),
            SignalingMessage::DeliveryAck { to, .. } => Some(to@),
            SignalingMessage::ProfileUpdate { to, .. } => Some(to@),
            SignalingMessage::GroupCreated { to, .. } => Some(to@),
            SignalingMessage::GroupChatMessage { to, .. } => Some(to@),
            SignalingMessage::MeetingChatMessage { to, .. } => Some(to@),
            SignalingMessage::GroupMemberAdded { to, .. } => Some(to@),
            SignalingMessage::GroupMemberRemoved { to, .. } => Some(to@),
            SignalingMessage::MeetingInvite { to, .. } => Some(to@),
            SignalingMessage::MeetingInviteResponse { to, .. } => Some(to@),
            SignalingMessage::MeetingOffer { to, .. } => Some(to@),
            SignalingMessage::MeetingAnswer { to, .. } => Some(to@),
            SignalingMessage::MeetingIceCandidate { to, .. } => Some(to@),
            SignalingMessage::MeetingChat { to, .. } => Some(to@),
            SignalingMessage::MeetingLeave { to, .. } => Some(to@),
            SignalingMessage::MeetingEnded { to, .. } => Some(to@),
            SignalingMessage::MeetingScreenShare { to, .. } => Some(to@),
            SignalingMessage::MeetingScreenShareInvite { to, .. } => Some(to@),
            SignalingMessage::MeetingRejoinRequest { to, .. } => Some(to@),
            SignalingMessage::MeetingParticipantList { to, .. } => Some(to@),
        }
    }

    /// The device that the message claims to come from.
    pub fn from_of(&self) -> (from: &String)
        ensures
            from@ == self.sender(),
    {
        match self {
            SignalingMessage::Offer { from, .. } => from,
            SignalingMessage::Answer { from, .. } => from,
            SignalingMessage::IceCandidate { from, .. } => from,
            SignalingMessage::ConnectionRequest { from, .. } => from,
            SignalingMessage::ConnectionAccepted { from, .. } => from,
            SignalingMessage::ConnectionRejected { from, .. } => from,
            SignalingMessage::ScreenShareInvite { from, .. } => from,
            SignalingMessage::ScreenShareResponse { from, .. } => from,
            SignalingMessage::ScreenShareEnded { from, .. } => from,
            SignalingMessage::FileTransferRequest { from, .. } => from,
            SignalingMessage::FileTransferResponse { from, .. } => from,
            SignalingMessage::Ping { from, .. } => from,
            SignalingMessage::Pong { from, .. } => from,
            SignalingMessage::ChatMessage { from, .. } => from,
            SignalingMessage::DeliveryAck { from, .. } => from,
            SignalingMessage::ProfileUpdate { from, .. } => from,
            SignalingMessage::GroupCreated { from, .. } => from,
            SignalingMessage::GroupChatMessage { from, .. } => from,
            SignalingMessage::MeetingChatMessage { from, .. } => from,
            SignalingMessage::GroupMemberAdded { from, .. } => from,
            SignalingMessage::GroupMemberRemoved { from, .. } => from,
            SignalingMessage::MeetingInvite { from, .. } => from,
            SignalingMessage::MeetingInviteResponse { from, .. } => from,
            SignalingMessage::MeetingOffer { from, .. } => from,
            SignalingMessage::MeetingAnswer { from, .. } => from,
            SignalingMessage::MeetingIceCandidate { from, .. } => from,
            SignalingMessage::MeetingChat { from, .. } => from,
            SignalingMessage::MeetingLeave { from, .. } => from,
            SignalingMessage::MeetingEnded { from, .. } => from,
            SignalingMessage::MeetingScreenShare { from, .. } => from,
            SignalingMessage::MeetingScreenShareInvite { from, .. } => from,
            SignalingMessage::MeetingRejoinRequest { from, .. } => from,
            SignalingMessage::MeetingParticipantList { from, .. } => from,
        }
    }

    /// The device that the message is meant for, where it names one.
    pub fn to_of(&self) -> (to: Option<&String>)
        ensures
            match to {
                Some(id) => self.recipient() == Some(id@),
                None => self.recipient() is None,
            },
    {
        match self {
            SignalingMessage::Offer { to, .. } => Some(to),
            SignalingMessage::Answer { to, .. } => Some(to),
            SignalingMessage::IceCandidate { to, .. } => Some(to),
            SignalingMessage::ConnectionRequest { to, .. } => Some(to),
            SignalingMessage::ConnectionAccepted { to, .. } => Some(to),
            SignalingMessage::ConnectionRejected { to, .. } => Some(to),
            SignalingMessage::ScreenShareInvite { to, .. } => Some(to),
            SignalingMessage::ScreenShareResponse { to, .. } => Some(to),
            SignalingMessage::ScreenShareEnded { to, .. } => Some(to),
            SignalingMessage::FileTransferRequest { to, .. } => Some(to),
            SignalingMessage::FileTransferResponse { to, .. } => Some(to),
            SignalingMessage::Ping { .. } => None,
            SignalingMessage::Pong { .. } => None,
            SignalingMessage::ChatMessage { to, .. } => Some(to),
            SignalingMessage::DeliveryAck { to, .. } => Some(to),
            SignalingMessage::ProfileUpdate { to, .. } => Some(to),
            SignalingMessage::GroupCreated { to, .. } => Some(to),
            SignalingMessage::GroupChatMessage { to, .. } => Some(to),
            SignalingMessage::MeetingChatMessage { to, .. } => Some(to),
            SignalingMessage::GroupMemberAdded { to, .. } => Some(to),
            SignalingMessage::GroupMemberRemoved { to, .. } => Some(to),
            SignalingMessage::MeetingInvite { to, .. } => Some(to),
            SignalingMessage::MeetingInviteResponse { to, .. } => Some(to),
            SignalingMessage::MeetingOffer { to, .. } => Some(to),
            SignalingMessage::MeetingAnswer { to, .. } => Some(to),
            SignalingMessage::MeetingIceCandidate { to, .. } => Some(to),
            SignalingMessage::MeetingChat { to, .. } => Some(to),
            SignalingMessage::MeetingLeave { to, .. } => Some(to),
            SignalingMessage::MeetingEnded { to, .. } => Some(to),
            SignalingMessage::MeetingScreenShare { to, .. } => Some(to),
            SignalingMessage::MeetingScreenShareInvite { to, .. } => Some(to),
            SignalingMessage::MeetingRejoinRequest { to, .. } => Some(to),
            SignalingMessage::MeetingParticipantList { to, .. } => Some(to),
        }
    }

    /// The variant's name, which is the `type` tag on the wire.
    pub open spec fn tag(&self) -> Seq<char> {
        match *self {
            SignalingMessage::Offer { .. } => "Offer"@,
            SignalingMessage::Answer { .. } => "Answer"@,
            SignalingMessage::IceCandidate { .. } => "IceCandidate"@,
            SignalingMessage::ConnectionRequest { .. } => "ConnectionRequest"@,
            SignalingMessage::ConnectionAccepted { .. } => "ConnectionAccepted"@,
            SignalingMessage::ConnectionRejected { .. } => "ConnectionRejected"@,
            SignalingMessage::ScreenShareInvite { .. } => "ScreenShareInvite"@,
            SignalingMessage::ScreenShareResponse { .. } => "ScreenShareResponse"@,
            SignalingMessage::ScreenShareEnded { .. } => "ScreenShareEnded"@,
            SignalingMessage::FileTransferRequest { .. } => "FileTransferRequest"@,
            SignalingMessage::FileTransferResponse { .. } => "FileTransferResponse"@,
            SignalingMessage::Ping { .. } => "Ping"@,
            SignalingMessage::Pong { .. } => "Pong"@,
            SignalingMessage::ChatMessage { .. } => "ChatMessage"@,
            SignalingMessage::DeliveryAck { .. } => "DeliveryAck"@,
            SignalingMessage::ProfileUpdate { .. } => "ProfileUpdate"@,
            SignalingMessage::GroupCreated { .. } => "GroupCreated"@,
            SignalingMessage::GroupChatMessage { .. } => "GroupChatMessage"@,
            SignalingMessage::MeetingChatMessage { .. } => "MeetingChatMessage"@,
            SignalingMessage::GroupMemberAdded { .. } => "GroupMemberAdded"@,
            SignalingMessage::GroupMemberRemoved { .. } => "GroupMemberRemoved"@,
            SignalingMessage::MeetingInvite { .. } => "MeetingInvite"@,
            SignalingMessage::MeetingInviteResponse { .. } => "MeetingInviteResponse"@,
            SignalingMessage::MeetingOffer { .. } => "MeetingOffer"@,
            SignalingMessage::MeetingAnswer { .. } => "MeetingAnswer"@,
            SignalingMessage::MeetingIceCandidate { .. } => "MeetingIceCandidate"@,
            SignalingMessage::MeetingChat { .. } => "MeetingChat"@,
            SignalingMessage::MeetingLeave { .. } => "MeetingLeave"@,
            SignalingMessage::MeetingEnded { .. } => "MeetingEnded"@,
            SignalingMessage::MeetingScreenShare { .. } => "MeetingScreenShare"@,
            SignalingMessage::MeetingScreenShareInvite { .. } => "MeetingScreenShareInvite"@,
            SignalingMessage::MeetingRejoinRequest { .. } => "MeetingRejoinRequest"@,
            SignalingMessage::MeetingParticipantList { .. } => "MeetingParticipantList"@,
        }
    }

    /// The variant's name, which is the `type` tag on the wire.
    pub fn tag_of(&self) -> (name: &'static str)
        ensures
            name@ == self.tag(),
    {
        match self {
            SignalingMessage::Offer { .. } => "Offer",
            SignalingMessage::Answer { .. } => "Answer",
            SignalingMessage::IceCandidate { .. } => "IceCandidate",
            SignalingMessage::ConnectionRequest { .. } => "ConnectionRequest",
            SignalingMessage::ConnectionAccepted { .. } => "ConnectionAccepted",
            SignalingMessage::ConnectionRejected { .. } => "ConnectionRejected",
            SignalingMessage::ScreenShareInvite { .. } => "ScreenShareInvite",
            SignalingMessage::ScreenShareResponse { .. } => "ScreenShareResponse",
            SignalingMessage::ScreenShareEnded { .. } => "ScreenShareEnded",
            SignalingMessage::FileTransferRequest { .. } => "FileTransferRequest",
            SignalingMessage::FileTransferResponse { .. } => "FileTransferResponse",
            SignalingMessage::Ping { .. } => "Ping",
            SignalingMessage::Pong { .. } => "Pong",
            SignalingMessage::ChatMessage { .. } => "ChatMessage",
            SignalingMessage::DeliveryAck { .. } => "DeliveryAck",
            SignalingMessage::ProfileUpdate { .. } => "ProfileUpdate",
            SignalingMessage::GroupCreated { .. } => "GroupCreated",
            SignalingMessage::GroupChatMessage { .. } => "GroupChatMessage",
            SignalingMessage::MeetingChatMessage { .. } => "MeetingChatMessage",
            SignalingMessage::GroupMemberAdded { .. } => "GroupMemberAdded",
            SignalingMessage::GroupMemberRemoved { .. } => "GroupMemberRemoved",
            SignalingMessage::MeetingInvite { .. } => "MeetingInvite",
            SignalingMessage::MeetingInviteResponse { .. } => "MeetingInviteResponse",
            SignalingMessage::MeetingOffer { .. } => "MeetingOffer",
            SignalingMessage::MeetingAnswer { .. } => "MeetingAnswer",
            SignalingMessage::MeetingIceCandidate { .. } => "MeetingIceCandidate",
            SignalingMessage::MeetingChat { .. } => "MeetingChat",
            SignalingMessage::MeetingLeave { .. } => "MeetingLeave",
            SignalingMessage::MeetingEnded { .. } => "MeetingEnded",
            SignalingMessage::MeetingScreenShare { .. } => "MeetingScreenShare",
            SignalingMessage::MeetingScreenShareInvite { .. } => "MeetingScreenShareInvite",
            SignalingMessage::MeetingRejoinRequest { .. } => "MeetingRejoinRequest",
            SignalingMessage::MeetingParticipantList { .. } => "MeetingParticipantList",
        }
    }
}

/// How far the connection to a peer has come.
#[derive(Debug, Clone, Copy, PartialEq, Eq, Structural)]
pub enum ConnectionState {
    Disconnected,
    Connecting,
    Connected,
    Failed,
}

/// A UDP address: the IP address in its canonical text, and the port.
#[derive(Debug)]
pub struct PeerAddress {
    pub ip: String,
    pub port: u16,
}

impl PeerAddress {
    /// The address as text and number.
    pub open spec fn view(&self) -> (Seq<char>, u16) {
        (self.ip@, self.port)
    }

    /// Whether two addresses are the same.
    pub fn same_as(&self, other: &PeerAddress) -> (same: bool)
        ensures
            same == (self@ == other@),
    {
        self.port == other.port && same_text(self.ip.as_str(), other.ip.as_str())
    }
}

impl Clone for PeerAddress {
    fn clone(&self) -> (copy: Self)
        ensures
            copy == *self,
    {
        PeerAddress { ip: self.ip.clone(), port: self.port }
    }
}

/// What the bus knows of one peer.
#[derive(Debug)]
pub struct PeerConnection {
    pub peer_id: String,
    pub address: PeerAddress,
    pub state: ConnectionState,
    pub session_id: Option<String>,
}

impl Clone for PeerConnection {
    fn clone(&self) -> (copy: Self)
        ensures
            copy.peer_id == self.peer_id,
            copy.address == self.address,
            copy.state == self.state,
            copy.session_id == self.session_id,
    {
        PeerConnection {
            peer_id: self.peer_id.clone(),
            address: self.address.clone(),
            state: self.state,
            session_id: match &self.session_id {
                Some(id) => Some(id.clone()),
                None => None,
            },
        }
    }
}

/// Why a message could not be sent.
#[derive(Debug, Clone, Copy, PartialEq, Eq, Structural)]
pub enum SignalingError {
    /// The bus has not been started.
    SocketNotInitialized,
    /// No address is bound to the peer.
    PeerNotFound,
}

impl SignalingError {
    /// The message that goes with the error.
    pub fn message(&self) -> (text: String)
        ensures
            text@ == match *self {
                SignalingError::SocketNotInitialized => "Socket not initialized"@,
                SignalingError::PeerNotFound => "Peer not found"@,
            },
    {
        match self {
            SignalingError::SocketNotInitialized => String::from_str("Socket not initialized"),
            SignalingError::PeerNotFound => String::from_str("Peer not found"),
        }
    }
}

/// What the bus does with a message that arrived from `source`, given the
/// address, if any, that the claimed sender is bound to.
pub enum Admission {
    /// The sender is this device itself: forward, bind nothing.
    Own,
    /// The sender is bound to the source address: forward.
    Known,
    /// The sender is bound to another address: drop.
    Spoofed,
    /// The sender is not bound yet: bind it to the source address and forward.
    FirstSeen,
}

/// The admission rule.
pub open spec fn admission(
    device_id: Seq<char>,
    sender: Seq<char>,
    bound: Option<(Seq<char>, u16)>,
    source: (Seq<char>, u16),
) -> Admission {
    if sender == device_id {
        Admission::Own
    } else {
        match bound {
            Some(address) => if address == source {
                Admission::Known
            } else {
                Admission::Spoofed
            },
            None => Admission::FirstSeen,
        }
    }
}

/// The peer table of the signaling bus of one device.
pub struct SignalingServer {
    device_id: String,
    socket_ready: bool,
    peers: Table<PeerConnection>,
    running: bool,
}

impl SignalingServer {
    /// No peer occurs twice and each is stored under its own identifier.
    pub closed spec fn wf(&self) -> bool {
        &&& self.peers.wf()
        &&& forall|i: int|
            0 <= i < self.peers.values.len() ==> (#[trigger] self.peers.values[i]).peer_id@
                == self.peers.keys[i]@
    }

    /// The identifier of this device.
    pub closed spec fn device(&self) -> Seq<char> {
        self.device_id@
    }

    /// The peers by identifier.
    pub closed spec fn peers(&self) -> Map<Seq<char>, PeerConnection> {
        self.peers@
    }

    /// The address that a peer is bound to, if it is bound.
    pub open spec fn binding(&self, peer_id: Seq<char>) -> Option<(Seq<char>, u16)> {
        if self.peers().contains_key(peer_id) {
            Some(self.peers()[peer_id].address@)
        } else {
            None
        }
    }

    /// Whether the bus has a socket to send on.
    pub closed spec fn ready(&self) -> bool {
        self.socket_ready
    }

    /// Whether the listener is to go on.
    pub closed spec fn running(&self) -> bool {
        self.running
    }

    /// Every peer is stored under its own identifier.
    pub proof fn lemma_peer_id(&self, peer_id: Seq<char>)
        requires
            self.wf(),
            self.peers().contains_key(peer_id),
        ensures
            self.peers()[peer_id].peer_id@ == peer_id,
    {
        let i = self.peers.index_of(peer_id);
        self.peers.lemma_index_unique(i);
    }

    /// A bus for the device `device_id`, not started, without peers.
    pub fn new(device_id: String) -> (server: Self)
        ensures
            server.wf(),
            server.device() == device_id@,
            server.peers() == Map::<Seq<char>, PeerConnection>::empty(),
            !server.ready(),
            !server.running(),
    {
        SignalingServer { device_id, socket_ready: false, peers: Table::new(), running: false }
    }

    /// Records that the caller has bound the socket to `bound_port` and that
    /// the listener runs.
    pub fn start(&mut self, bound_port: u16) -> (port: u16)
        requires
            old(self).wf(),
        ensures
            final(self).wf(),
            port == bound_port,
            final(self).ready(),
            final(self).running(),
            final(self).device() == old(self).device(),
            final(self).peers() == old(self).peers(),
    {
        self.socket_ready = true;
        self.running = true;
        bound_port
    }

    /// Tells the listener to end.
    pub fn stop(&mut self)
        requires
            old(self).wf(),
        ensures
            final(self).wf(),
            !final(self).running(),
            final(self).ready() == old(self).ready(),
            final(self).device() == old(self).device(),
            final(self).peers() == old(self).peers(),
    {
        self.running = false;
    }

    /// Whether the listener is to go on.
    pub fn is_running(&self) -> (running: bool)
        ensures
            running == self.running(),
    {
        self.running
    }

    /// Decides on a message that arrived from `source`: whether it is
    /// forwarded to the application. A message of a sender that is bound to
    /// another address is dropped and changes nothing; a sender not seen
    /// before is bound to `source`. No message changes an existing binding.
    pub fn accept_message(&mut self, message: &SignalingMessage, source: PeerAddress) -> (forward:
        bool)
        requires
            old(self).wf(),
        ensures
            final(self).wf(),
            final(self).device() == old(self).device(),
            final(self).ready() == old(self).ready(),
            final(self).running() == old(self).running(),
            forall|id: Seq<char>|
                old(self).peers().contains_key(id) ==> final(self).peers().contains_key(id)
                    && final(self).peers()[id] == old(self).peers()[id],
            match admission(
                old(self).device(),
                message.sender(),
                old(self).binding(message.sender()),
                source@,
            ) {
                Admission::Own => forward && final(self).peers() == old(self).peers(),
                Admission::Known => forward && final(self).peers() == old(self).peers(),
                Admission::Spoofed => !forward && final(self).peers() == old(self).peers(),
                Admission::FirstSeen => {
                    let bound = final(self).peers()[message.sender()];
                    &&& forward
                    &&& final(self).peers().dom() == old(self).peers().dom().insert(
                        message.sender(),
                    )
                    &&& bound.peer_id@ == message.sender()
                    &&& bound.address == source
                    &&& bound.state == ConnectionState::Disconnected
                    &&& bound.session_id is None
                },
            },
    {
        let id = message.from_of();
        if same_text(id.as_str(), self.device_id.as_str()) {
            return true;
        }
        match self.peers.get(id.as_str()) {
            Some(existing) => existing.address.same_as(&source),
            None => {
                let ghost before = *self;
                let connection = PeerConnection {
                    peer_id: id.clone(),
                    address: source,
                    state: ConnectionState::Disconnected,
                    session_id: None,
                };
                self.peers.insert(id.clone(), connection);
                proof {
                    assert forall|i: int| 0 <= i < self.peers.values.len() implies (
                    #[trigger] self.peers.values[i]).peer_id@ == self.peers.keys[i]@ by {
                        if i < before.peers.values.len() {
                            assert(before.peers.values[i].peer_id@ == before.peers.keys[i]@);
                        }
                    }
                    assert(self.peers@.dom() =~= before.peers@.dom().insert(id@));
                }
                true
            },
        }
    }

    /// Where a message for `peer_id` is to be sent.
    pub fn send_message(&self, peer_id: &str, message: &SignalingMessage) -> (destination: Result<
        PeerAddress,
        SignalingError,
    >)
        requires
            self.wf(),
        ensures
            match destination {
                Ok(address) => self.ready() && self.peers().contains_key(peer_id@) && address
                    == self.peers()[peer_id@].address,
                Err(e) => if !self.ready() {
                    e == SignalingError::SocketNotInitialized
                } else {
                    e == SignalingError::PeerNotFound && !self.peers().contains_key(peer_id@)
                },
            },
    {
        if !self.socket_ready {
            return Err(SignalingError::SocketNotInitialized);
        }
        match self.peers.get(peer_id) {
            Some(peer) => Ok(peer.address.clone()),
            None => Err(SignalingError::PeerNotFound),
        }
    }

    /// Whether a message may be sent to an address that the caller names.
    pub fn send_to_address(&self, address: PeerAddress, message: &SignalingMessage) -> (destination:
        Result<PeerAddress, SignalingError>)
        ensures
            match destination {
                Ok(a) => self.ready() && a == address,
                Err(e) => !self.ready() && e == SignalingError::SocketNotInitialized,
            },
    {
        if !self.socket_ready {
            return Err(SignalingError::SocketNotInitialized);
        }
        Ok(address)
    }

    /// Binds `peer_id` to `address`, in place of whatever it was bound to:
    /// the connection starts over as disconnected, without session.
    pub fn register_peer(&mut self, peer_id: &str, address: PeerAddress)
        requires
            old(self).wf(),
        ensures
            final(self).wf(),
            final(self).device() == old(self).device(),
            final(self).ready() == old(self).ready(),
            final(self).running() == old(self).running(),
            final(self).peers().dom() == old(self).peers().dom().insert(peer_id@),
            forall|other: Seq<char>|
                other != peer_id@ && old(self).peers().contains_key(other) ==> final(self).peers()[other] == old(self).peers()[other],
            final(self).peers()[peer_id@].peer_id@ == peer_id@,
            final(self).peers()[peer_id@].address == address,
            final(self).peers()[peer_id@].state == ConnectionState::Disconnected,
            final(self).peers()[peer_id@].session_id is None,
    {
        let ghost before = *self;
        let connection = PeerConnection {
            peer_id: String::from_str(peer_id),
            address,
            state: ConnectionState::Disconnected,
            session_id: None,
        };
        self.peers.insert(String::from_str(peer_id), connection);
        proof {
            if before.peers@.contains_key(peer_id@) {
                let p = before.peers.index_of(peer_id@);
                assert forall|i: int| 0 <= i < self.peers.values.len() implies (
                #[trigger] self.peers.values[i]).peer_id@ == self.peers.keys[i]@ by {
                    if i != p {
                        assert(before.peers.values[i].peer_id@ == before.peers.keys[i]@);
                    }
                }
            } else {
                assert forall|i: int| 0 <= i < self.peers.values.len() implies (
                #[trigger] self.peers.values[i]).peer_id@ == self.peers.keys[i]@ by {
                    if i < before.peers.values.len() {
                        assert(before.peers.values[i].peer_id@ == before.peers.keys[i]@);
                    }
                }
            }
            assert(self.peers@.dom() =~= before.peers@.dom().insert(peer_id@));
        }
    }

    /// Sets the connection state of a peer; an unknown peer changes nothing.
    pub fn update_peer_state(&mut self, peer_id: &str, state: ConnectionState)
        requires
            old(self).wf(),
        ensures
            final(self).wf(),
            final(self).device() == old(self).device(),
            final(self).ready() == old(self).ready(),
            final(self).running() == old(self).running(),
            final(self).peers().dom() == old(self).peers().dom(),
            forall|other: Seq<char>|
                other != peer_id@ && old(self).peers().contains_key(other) ==> final(self).peers()[other] == old(self).peers()[other],
            old(self).peers().contains_key(peer_id@) ==> {
                let before = old(self).peers()[peer_id@];
                let after = final(self).peers()[peer_id@];
                &&& after.state == state
                &&& after.peer_id == before.peer_id
                &&& after.address == before.address
                &&& after.session_id == before.session_id
            },
    {
        let ghost before = *self;
        match self.peers.position(peer_id) {
            Some(i) => {
                self.peers.values[i].state = state;
                proof {
                    assert(self.peers.wf());
                    assert forall|j: int| 0 <= j < self.peers.values.len() implies (
                    #[trigger] self.peers.values[j]).peer_id@ == self.peers.keys[j]@ by {
                        assert(before.peers.values[j].peer_id@ == before.peers.keys[j]@);
                    }
                    assert forall|k: Seq<char>| #[trigger]
                        self.peers@.contains_key(k) == before.peers@.contains_key(k) by {
                        if before.peers.contains(k) {
                            let j = before.peers.index_of(k);
                            assert(self.peers.keys[j]@ == k);
                        }
                        if self.peers.contains(k) {
                            let j = self.peers.index_of(k);
                            assert(before.peers.keys[j]@ == k);
                        }
                    }
                    assert(self.peers@.dom() =~= before.peers@.dom());
                    assert forall|other: Seq<char>|
                        other != peer_id@ && before.peers().contains_key(
                            other,
                        ) implies self.peers()[other] == before.peers()[other] by {
                        let j = before.peers.index_of(other);
                        before.peers.lemma_index_unique(j);
                        self.peers.lemma_index_unique(j);
                    }
                    before.peers.lemma_index_unique(i as int);
                    self.peers.lemma_index_unique(i as int);
                }
            },
            None => {},
        }
    }

    /// What the bus knows of a peer, as a copy.
    pub fn get_peer(&self, peer_id: &str) -> (peer: Option<PeerConnection>)
        requires
            self.wf(),
        ensures
            match peer {
                Some(p) => {
                    let held = self.peers()[peer_id@];
                    &&& self.peers().contains_key(peer_id@)
                    &&& p.peer_id == held.peer_id
                    &&& p.peer_id@ == peer_id@
                    &&& p.address == held.address
                    &&& p.state == held.state
                    &&& p.session_id == held.session_id
                },
                None => !self.peers().contains_key(peer_id@),
            },
    {
        match self.peers.get(peer_id) {
            Some(peer) => {
                proof {
                    self.lemma_peer_id(peer_id@);
                }
                Some(peer.clone())
            },
            None => None,
        }
    }

    /// The identifiers of the peers whose connection stands: each once, no
    /// other.
    pub fn get_connected_peers(&self) -> (connected: Vec<String>)
        requires
            self.wf(),
        ensures
            forall|k: int|
                0 <= k < connected@.len() ==> self.peers().contains_key(#[trigger] connected@[k]@)
                    && self.peers()[connected@[k]@].state == ConnectionState::Connected,
            forall|k: int, l: int|
                0 <= k < l < connected@.len() ==> connected@[k]@ != connected@[l]@,
            forall|id: Seq<char>|
                self.peers().contains_key(id) && self.peers()[id].state
                    == ConnectionState::Connected ==> exists|k: int|
                    0 <= k < connected@.len() && #[trigger] connected@[k]@ == id,
    {
        let mut connected: Vec<String> = Vec::new();
        let ghost mut origin: Seq<int> = Seq::empty();
        let mut i: usize = 0;
        while i < self.peers.keys.len()
            invariant
                self.wf(),
                i <= self.peers.keys.len(),
                origin.len() == connected@.len(),
                forall|k: int|
                    0 <= k < connected@.len() ==> 0 <= #[trigger] origin[k] < i && connected@[k]@
                        == self.peers.keys[origin[k]]@ && self.peers.values[origin[k]].state
                        == ConnectionState::Connected,
                forall|k: int, l: int| 0 <= k < l < origin.len() ==> origin[k] < origin[l],
                forall|j: int|
                    0 <= j < i && self.peers.values[j].state == ConnectionState::Connected
                        ==> exists|k: int| 0 <= k < origin.len() && #[trigger] origin[k] == j,
            decreases self.peers.keys.len() - i,
        {
            if self.peers.values[i].state == ConnectionState::Connected {
                let ghost earlier = origin;
                connected.push(self.peers.keys[i].clone());
                proof {
                    origin = origin.push(i as int);
                    assert forall|j: int|
                        0 <= j < i + 1 && self.peers.values[j].state
                            == ConnectionState::Connected implies exists|k: int|
                        0 <= k < origin.len() && #[trigger] origin[k] == j by {
                        if j < i {
                            let k = choose|k: int| 0 <= k < earlier.len() && earlier[k] == j;
                            assert(origin[k] == j);
                        } else {
                            assert(origin[origin.len() - 1] == j);
                        }
                    }
                }
            }
            i += 1;
        }
        proof {
            assert forall|k: int| 0 <= k < connected@.len() implies self.peers().contains_key(
                #[trigger] connected@[k]@,
            ) && self.peers()[connected@[k]@].state == ConnectionState::Connected by {
                self.peers.lemma_index_unique(origin[k]);
            }
            assert forall|k: int, l: int| 0 <= k < l < connected@.len() implies connected@[k]@
                != connected@[l]@ by {
                assert(origin[k] < origin[l]);
                assert(self.peers.keys[origin[k]]@ != self.peers.keys[origin[l]]@);
            }
            assert forall|id: Seq<char>|
                self.peers().contains_key(id) && self.peers()[id].state
                    == ConnectionState::Connected implies exists|k: int|
                0 <= k < connected@.len() && #[trigger] connected@[k]@ == id by {
                let j = self.peers.index_of(id);
                self.peers.lemma_index_unique(j);
                let k = choose|k: int| 0 <= k < origin.len() && origin[k] == j;
                assert(connected@[k]@ == id);
            }
        }
        connected
    }
}

/// Once a peer is bound to an address, a message that claims the peer's name
/// from another address is not forwarded.
pub proof fn law_spoofed_message_dropped(
    device_id: Seq<char>,
    sender: Seq<char>,
    bound: (Seq<char>, u16),
    source: (Seq<char>, u16),
)
    requires
        sender != device_id,
        source != bound,
    ensures
        admission(device_id, sender, Some(bound), source) == Admission::Spoofed,
{
}

} // verus!
