//! Presence on the local network: what a device announces, how the table of
//! peers follows the announcements of others, and when a silent peer is
//! taken for lost.
//!
//! Sockets, clocks and the JSON on the wire are the caller's. Time comes in
//! as nanoseconds of a clock that never runs backwards.

use crate::table::Table;
use crate::text::same_text;
use vstd::prelude::*;

verus! {

/// The UDP port for presence announcements.
pub const DISCOVERY_PORT: u16 = 15353;

/// A peer that has been silent for longer than this many seconds is lost.
pub const PEER_TIMEOUT_SECS: u64 = 15;

/// The seconds between two announcements.
pub const ANNOUNCE_INTERVAL_SECS: u64 = 3;

/// `PEER_TIMEOUT_SECS` in nanoseconds.
pub const PEER_TIMEOUT_NANOS: u64 = 15_000_000_000;

/// A peer as others see it.
#[derive(Debug)]
pub struct PeerInfo {
    pub device_id: String,
    pub username: String,
    pub ip_address: String,
    pub port: u16,
    pub public_key: String,
    pub is_online: bool,
}

impl Clone for PeerInfo {
    fn clone(&self) -> (copy: Self)
        ensures
            copy == *self,
    {
        PeerInfo {
            device_id: self.device_id.clone(),
            username: self.username.clone(),
            ip_address: self.ip_address.clone(),
            port: self.port,
            public_key: self.public_key.clone(),
            is_online: self.is_online,
        }
    }
}

/// A peer as the table holds it: what it announced, where it was heard from
/// and when it was last heard.
#[derive(Debug)]
pub struct Peer {
    pub device_id: String,
    pub username: String,
    pub ip_address: String,
    pub port: u16,
    pub public_key: String,
    pub is_online: bool,
    pub last_seen: u64,
}

impl Peer {
    /// Whether `info` says of the peer what the table holds.
    pub open spec fn shown_as(&self, info: PeerInfo) -> bool {
        &&& info.device_id@ == self.device_id@
        &&& info.username@ == self.username@
        &&& info.ip_address@ == self.ip_address@
        &&& info.port == self.port
        &&& info.public_key@ == self.public_key@
        &&& info.is_online == self.is_online
    }

    /// Whether the peer, online, has been silent for longer than the timeout.
    pub open spec fn stale(&self, now: u64) -> bool {
        self.is_online && now > self.last_seen && now - self.last_seen > PEER_TIMEOUT_NANOS
    }

    /// The peer as others see it.
    pub fn info(&self) -> (info: PeerInfo)
        ensures
            self.shown_as(info),
    {
        PeerInfo {
            device_id: self.device_id.clone(),
            username: self.username.clone(),
            ip_address: self.ip_address.clone(),
            port: self.port,
            public_key: self.public_key.clone(),
            is_online: self.is_online,
        }
    }
}

impl PeerInfo {
    /// The peer as others see it.
    pub fn from(peer: &Peer) -> (info: PeerInfo)
        ensures
            peer.shown_as(info),
    {
        peer.info()
    }
}

/// What happened to a peer.
#[derive(Debug)]
pub enum DiscoveryEvent {
    /// A peer was heard for the first time.
    PeerDiscovered { peer: PeerInfo },
    /// A known peer announced itself again.
    PeerUpdated { peer: PeerInfo },
    /// A peer said goodbye or fell silent.
    PeerLost { device_id: String },
}

/// The kind of a presence packet.
#[derive(Debug, Clone, Copy, PartialEq, Eq, Structural)]
pub enum MessageType {
    Hello,
    Bye,
}

/// A presence packet.
#[derive(Debug)]
pub struct DiscoveryPacket {
    pub msg_type: MessageType,
    pub peer: PeerInfo,
}

/// An IPv4 address by its four octets.
#[derive(Debug, Clone, Copy, PartialEq, Eq, Structural)]
pub struct Ipv4 {
    pub a: u8,
    pub b: u8,
    pub c: u8,
    pub d: u8,
}

/// One IPv4 address of a network interface, with what the system says of
/// its subnet.
#[derive(Debug, Clone, Copy)]
pub struct InterfaceAddress {
    pub ip: Ipv4,
    pub broadcast: Option<Ipv4>,
    pub netmask: Option<Ipv4>,
}

/// The address that reaches every host on every attached network.
pub open spec fn global_broadcast() -> Ipv4 {
    Ipv4 { a: 255, b: 255, c: 255, d: 255 }
}

/// The broadcast address of the subnet of `ip`: what the system names;
/// else the address with every host bit set; else, without a netmask, the
/// address with the last octet set.
pub open spec fn subnet_broadcast(address: InterfaceAddress) -> Ipv4 {
    match address.broadcast {
        Some(broadcast) => broadcast,
        None => match address.netmask {
            Some(mask) => Ipv4 {
                a: address.ip.a | !mask.a,
                b: address.ip.b | !mask.b,
                c: address.ip.c | !mask.c,
                d: address.ip.d | !mask.d,
            },
            None => Ipv4 { a: address.ip.a, b: address.ip.b, c: address.ip.c, d: 255 },
        },
    }
}

/// Whether an address is in the loopback block 127.0.0.0/8.
pub open spec fn loopback(ip: Ipv4) -> bool {
    ip.a == 127
}

/// Whether `targets` are the subnet broadcast addresses of the non-loopback
/// interface addresses, each once, without the global broadcast address.
pub open spec fn announced_to(targets: Seq<Ipv4>, interfaces: Seq<InterfaceAddress>) -> bool {
    &&& forall|k: int|
        0 <= k < targets.len() ==> (#[trigger] targets[k]) != global_broadcast() && exists|j: int|
            0 <= j < interfaces.len() && !loopback(interfaces[j].ip) && targets[k]
                == subnet_broadcast(#[trigger] interfaces[j])
    &&& forall|k: int, l: int| 0 <= k < l < targets.len() ==> targets[k] != targets[l]
    &&& forall|j: int|
        0 <= j < interfaces.len() && !loopback((#[trigger] interfaces[j]).ip) && subnet_broadcast(
            interfaces[j],
        ) != global_broadcast() ==> targets.contains(subnet_broadcast(interfaces[j]))
}

fn contains_address(list: &Vec<Ipv4>, ip: Ipv4) -> (found: bool)
    ensures
        found == list@.contains(ip),
{
    let mut i: usize = 0;
    while i < list.len()
        invariant
            i <= list.len(),
            forall|j: int| 0 <= j < i ==> list@[j] != ip,
        decreases list.len() - i,
    {
        if list[i] == ip {
            return true;
        }
        i += 1;
    }
    false
}

/// Whether an address is in the loopback block.
pub fn is_loopback(ip: Ipv4) -> (lo: bool)
    ensures
        lo == loopback(ip),
{
    ip.a == 127
}

/// The subnet broadcast address of one interface address.
pub fn broadcast_of(address: &InterfaceAddress) -> (broadcast: Ipv4)
    ensures
        broadcast == subnet_broadcast(*address),
{
    match address.broadcast {
        Some(broadcast) => broadcast,
        None => match address.netmask {
            Some(mask) => Ipv4 {
                a: address.ip.a | !mask.a,
                b: address.ip.b | !mask.b,
                c: address.ip.c | !mask.c,
                d: address.ip.d | !mask.d,
            },
            None => Ipv4 { a: address.ip.a, b: address.ip.b, c: address.ip.c, d: 255 },
        },
    }
}

/// The subnet broadcast addresses to announce to, beside the global one:
/// one per subnet of the non-loopback interface addresses, in the order in
/// which the interfaces name them.
pub fn get_local_broadcast_addresses(interfaces: &Vec<InterfaceAddress>) -> (targets: Vec<Ipv4>)
    ensures
        announced_to(targets@, interfaces@),
{
    let mut targets: Vec<Ipv4> = Vec::new();
    let mut n: usize = 0;
    while n < interfaces.len()
        invariant
            n <= interfaces.len(),
            announced_to(targets@, interfaces@.take(n as int)),
        decreases interfaces.len() - n,
    {
        let address = interfaces[n];
        let ghost earlier = targets@;
        let ghost before = interfaces@.take(n as int);
        let ghost after = interfaces@.take(n + 1);
        proof {
            assert(after =~= before.push(address));
            assert forall|j: int| 0 <= j < before.len() implies #[trigger] after[j] == before[j] by {}
        }
        if !is_loopback(address.ip) {
            let broadcast = broadcast_of(&address);
            let fresh = !contains_address(&targets, broadcast);
            let global = broadcast.a == 255 && broadcast.b == 255 && broadcast.c == 255
                && broadcast.d == 255;
            if fresh && !global {
                targets.push(broadcast);
                proof {
                    assert(targets@[targets@.len() - 1] == broadcast);
                    assert(after[n as int] == address);
                }
            }
        }
        proof {
            assert forall|k: int| 0 <= k < targets@.len() implies (#[trigger] targets@[k])
                != global_broadcast() && exists|j: int|
                0 <= j < after.len() && !loopback(after[j].ip) && targets@[k] == subnet_broadcast(
                    #[trigger] after[j],
                ) by {
                if k < earlier.len() {
                    assert(targets@[k] == earlier[k]);
                    let j = choose|j: int|
                        0 <= j < before.len() && !loopback(before[j].ip) && earlier[k]
                            == subnet_broadcast(#[trigger] before[j]);
                    assert(after[j] == before[j]);
                } else {
                    assert(after[n as int] == address);
                }
            }
            assert forall|j: int|
                0 <= j < after.len() && !loopback((#[trigger] after[j]).ip) && subnet_broadcast(
                    after[j],
                ) != global_broadcast() implies targets@.contains(subnet_broadcast(after[j])) by {
                if j < before.len() {
                    assert(after[j] == before[j]);
                    assert(earlier.contains(subnet_broadcast(before[j])));
                    let k = choose|k: int|
                        0 <= k < earlier.len() && earlier[k] == subnet_broadcast(before[j]);
                    assert(targets@[k] == earlier[k]);
                } else {
                    if earlier.contains(subnet_broadcast(address)) {
                        let k = choose|k: int|
                            0 <= k < earlier.len() && earlier[k] == subnet_broadcast(address);
                        assert(targets@[k] == earlier[k]);
                    } else {
                        assert(targets@[targets@.len() - 1] == subnet_broadcast(address));
                    }
                }
            }
        }
        n += 1;
    }
    proof {
        assert(interfaces@.take(interfaces.len() as int) =~= interfaces@);
    }
    targets
}

/// Whether `event` reports the peer `device_id` as lost.
pub open spec fn lost_event(event: DiscoveryEvent, device_id: String) -> bool {
    event matches DiscoveryEvent::PeerLost { device_id: id } && id == device_id
}

/// The table of peers of one device, and whether the device announces.
pub struct DiscoveryManager {
    peers: Table<Peer>,
    running: bool,
    local: Option<PeerInfo>,
}

/// Whether `after` is `before` heard again through `packet` from
/// `source_ip` at `now`.
pub open spec fn heard(after: Peer, packet: PeerInfo, source_ip: Seq<char>, now: u64) -> bool {
    &&& after.device_id@ == packet.device_id@
    &&& after.username@ == packet.username@
    &&& after.ip_address@ == source_ip
    &&& after.port == packet.port
    &&& after.public_key@ == packet.public_key@
    &&& after.is_online
    &&& after.last_seen == now
}

/// Whether `after` is `before` with nothing changed but `is_online`.
pub open spec fn same_but_online(after: Peer, before: Peer, is_online: bool) -> bool {
    &&& after.device_id == before.device_id
    &&& after.username == before.username
    &&& after.ip_address == before.ip_address
    &&& after.port == before.port
    &&& after.public_key == before.public_key
    &&& after.last_seen == before.last_seen
    &&& after.is_online == is_online
}

impl DiscoveryManager {
    /// No peer occurs twice and each is stored under its own identifier.
    pub closed spec fn wf(&self) -> bool {
        &&& self.peers.wf()
        &&& forall|i: int|
            0 <= i < self.peers.values.len() ==> (#[trigger] self.peers.values[i]).device_id@
                == self.peers.keys[i]@
    }

    /// The peers by identifier.
    pub closed spec fn peers(&self) -> Map<Seq<char>, Peer> {
        self.peers@
    }

    /// Whether the device announces and listens.
    pub closed spec fn running(&self) -> bool {
        self.running
    }

    /// What the device announces of itself, once it has been started.
    pub closed spec fn local(&self) -> Option<PeerInfo> {
        self.local
    }

    /// Whether a packet of this identifier is the device's own.
    pub open spec fn own(&self, device_id: Seq<char>) -> bool {
        self.local() matches Some(me) && me.device_id@ == device_id
    }

    /// Every peer is stored under its own identifier.
    pub proof fn lemma_peer_id(&self, device_id: Seq<char>)
        requires
            self.wf(),
            self.peers().contains_key(device_id),
        ensures
            self.peers()[device_id].device_id@ == device_id,
    {
        let i = self.peers.index_of(device_id);
        self.peers.lemma_index_unique(i);
    }

    /// A manager that knows no peer and does not run.
    pub fn new() -> (manager: Self)
        ensures
            manager.wf(),
            manager.peers() == Map::<Seq<char>, Peer>::empty(),
            !manager.running(),
            manager.local() is None,
    {
        DiscoveryManager { peers: Table::new(), running: false, local: None }
    }

    /// Starts announcing as the given device, unless the manager runs
    /// already; says whether it started. The address announced is 0.0.0.0:
    /// receivers go by where the packet came from.
    pub fn start(&mut self, device_id: String, username: String, port: u16, public_key: String) -> (
    started: bool)
        requires
            old(self).wf(),
        ensures
            final(self).wf(),
            final(self).peers() == old(self).peers(),
            final(self).running(),
            started == !old(self).running(),
            !started ==> final(self).local() == old(self).local(),
            started ==> {
                &&& final(self).local() matches Some(me)
                &&& me.device_id == device_id
                &&& me.username == username
                &&& me.ip_address@ == "0.0.0.0"@
                &&& me.port == port
                &&& me.public_key == public_key
                &&& me.is_online
            },
    {
        if self.running {
            return false;
        }
        self.running = true;
        self.local = Some(
            PeerInfo {
                device_id,
                username,
                ip_address: String::from_str("0.0.0.0"),
                port,
                public_key,
                is_online: true,
            },
        );
        true
    }

    /// Stops announcing and listening.
    pub fn stop(&mut self)
        requires
            old(self).wf(),
        ensures
            final(self).wf(),
            final(self).peers() == old(self).peers(),
            final(self).local() == old(self).local(),
            !final(self).running(),
    {
        self.running = false;
    }

    /// Whether the device announces and listens.
    pub fn is_running(&self) -> (running: bool)
        ensures
            running == self.running(),
    {
        self.running
    }

    /// The packet to announce with: a Hello while running, a Bye on the way
    /// out. Nothing before the first start.
    pub fn announcement(&self, msg_type: MessageType) -> (packet: Option<DiscoveryPacket>)
        ensures
            match packet {
                Some(p) => self.local() == Some(p.peer) && p.msg_type == msg_type,
                None => self.local() is None,
            },
    {
        match &self.local {
            Some(me) => Some(DiscoveryPacket { msg_type, peer: me.clone() }),
            None => None,
        }
    }

    /// Takes in a presence packet that came from `source_ip` at `now`.
    /// The device's own packets are ignored. A Hello makes or refreshes the
    /// peer, with the source address in place of the announced one; a Bye
    /// takes a known peer offline.
    pub fn handle_packet(&mut self, packet: DiscoveryPacket, source_ip: &str, now: u64) -> (event:
        Option<DiscoveryEvent>)
        requires
            old(self).wf(),
        ensures
            final(self).wf(),
            final(self).running() == old(self).running(),
            final(self).local() == old(self).local(),
            forall|other: Seq<char>|
                other != packet.peer.device_id@ && old(self).peers().contains_key(other) ==> final(self).peers().contains_key(other) && final(self).peers()[other] == old(self).peers()[other],
            ({
                let id = packet.peer.device_id@;
                let known = old(self).peers().contains_key(id);
                if old(self).own(id) {
                    event is None && final(self).peers() == old(self).peers()
                } else if packet.msg_type == MessageType::Hello {
                    &&& final(self).peers().dom() == old(self).peers().dom().insert(id)
                    &&& heard(final(self).peers()[id], packet.peer, source_ip@, now)
                    &&& if known {
                        event matches Some(DiscoveryEvent::PeerUpdated { peer })
                            && final(self).peers()[id].shown_as(peer)
                    } else {
                        event matches Some(DiscoveryEvent::PeerDiscovered { peer })
                            && final(self).peers()[id].shown_as(peer)
                    }
                } else if known {
                    &&& final(self).peers().dom() == old(self).peers().dom()
                    &&& same_but_online(final(self).peers()[id], old(self).peers()[id], false)
                    &&& event matches Some(DiscoveryEvent::PeerLost { device_id })
                    &&& device_id@ == id
                } else {
                    event is None && final(self).peers() == old(self).peers()
                }
            }),
    {
        let ghost before = *self;
        let own = match &self.local {
            Some(me) => same_text(me.device_id.as_str(), packet.peer.device_id.as_str()),
            None => false,
        };
        if own {
            return None;
        }
        let found = self.peers.position(packet.peer.device_id.as_str());
        match packet.msg_type {
            MessageType::Hello => {
                let peer = Peer {
                    device_id: packet.peer.device_id.clone(),
                    username: packet.peer.username,
                    ip_address: String::from_str(source_ip),
                    port: packet.peer.port,
                    public_key: packet.peer.public_key,
                    is_online: true,
                    last_seen: now,
                };
                let info = peer.info();
                self.peers.insert(packet.peer.device_id, peer);
                proof {
                    let id = packet.peer.device_id@;
                    if before.peers@.contains_key(id) {
                        let p = before.peers.index_of(id);
                        assert forall|i: int| 0 <= i < self.peers.values.len() implies (
                        #[trigger] self.peers.values[i]).device_id@ == self.peers.keys[i]@ by {
                            if i != p {
                                assert(before.peers.values[i].device_id@ == before.peers.keys[i]@);
                            }
                        }
                    } else {
                        assert forall|i: int| 0 <= i < self.peers.values.len() implies (
                        #[trigger] self.peers.values[i]).device_id@ == self.peers.keys[i]@ by {
                            if i < before.peers.values.len() {
                                assert(before.peers.values[i].device_id@ == before.peers.keys[i]@);
                            }
                        }
                    }
                    assert(self.peers@.dom() =~= before.peers@.dom().insert(id));
                }
                match found {
                    Some(_) => Some(DiscoveryEvent::PeerUpdated { peer: info }),
                    None => Some(DiscoveryEvent::PeerDiscovered { peer: info }),
                }
            },
            MessageType::Bye => match found {
                Some(i) => {
                    self.peers.values[i].is_online = false;
                    proof {
                        before.peers.lemma_same_keys(&self.peers);
                        assert forall|j: int| 0 <= j < self.peers.values.len() implies (
                        #[trigger] self.peers.values[j]).device_id@ == self.peers.keys[j]@ by {
                            assert(before.peers.values[j].device_id@ == before.peers.keys[j]@);
                        }
                        assert forall|other: Seq<char>|
                            other != packet.peer.device_id@ && before.peers().contains_key(
                                other,
                            ) implies self.peers().contains_key(other) && self.peers()[other]
                            == before.peers()[other] by {
                            assert(before.peers@.contains_key(other));
                        }
                        assert(before.peers@.contains_key(packet.peer.device_id@));
                    }
                    Some(DiscoveryEvent::PeerLost { device_id: packet.peer.device_id })
                },
                None => None,
            },
        }
    }

    /// Takes every online peer that has been silent for longer than the
    /// timeout offline, and reports each of them as lost, once.
    pub fn sweep(&mut self, now: u64) -> (lost: Vec<String>)
        requires
            old(self).wf(),
        ensures
            final(self).wf(),
            final(self).running() == old(self).running(),
            final(self).local() == old(self).local(),
            final(self).peers().dom() == old(self).peers().dom(),
            forall|id: Seq<char>|
                old(self).peers().contains_key(id) ==> same_but_online(
                    #[trigger] final(self).peers()[id],
                    old(self).peers()[id],
                    old(self).peers()[id].is_online && !old(self).peers()[id].stale(now),
                ),
            forall|k: int|
                0 <= k < lost@.len() ==> old(self).peers().contains_key(#[trigger] lost@[k]@)
                    && old(self).peers()[lost@[k]@].stale(now),
            forall|k: int, l: int| 0 <= k < l < lost@.len() ==> lost@[k]@ != lost@[l]@,
            forall|id: Seq<char>|
                old(self).peers().contains_key(id) && old(self).peers()[id].stale(now)
                    ==> exists|k: int| 0 <= k < lost@.len() && #[trigger] lost@[k]@ == id,
    {
        let ghost before = *self;
        let mut lost: Vec<String> = Vec::new();
        let ghost mut origin: Seq<int> = Seq::empty();
        let mut i: usize = 0;
        while i < self.peers.values.len()
            invariant
                before.wf(),
                i <= self.peers.values.len(),
                self.peers.keys@ == before.peers.keys@,
                self.peers.values.len() == before.peers.values.len(),
                self.running == before.running,
                self.local == before.local,
                forall|j: int|
                    i <= j < self.peers.values.len() ==> self.peers.values[j]
                        == before.peers.values[j],
                forall|j: int|
                    0 <= j < i ==> same_but_online(
                        #[trigger] self.peers.values[j],
                        before.peers.values[j],
                        before.peers.values[j].is_online && !before.peers.values[j].stale(now),
                    ),
                origin.len() == lost@.len(),
                forall|k: int|
                    0 <= k < lost@.len() ==> 0 <= #[trigger] origin[k] < i && lost@[k]@
                        == before.peers.keys[origin[k]]@ && before.peers.values[origin[k]].stale(
                        now,
                    ),
                forall|k: int, l: int| 0 <= k < l < origin.len() ==> origin[k] < origin[l],
                forall|j: int|
                    0 <= j < i && before.peers.values[j].stale(now) ==> exists|k: int|
                        0 <= k < origin.len() && #[trigger] origin[k] == j,
            decreases self.peers.values.len() - i,
        {
            let online = self.peers.values[i].is_online;
            let last_seen = self.peers.values[i].last_seen;
            if online && now > last_seen && now - last_seen > PEER_TIMEOUT_NANOS {
                let ghost earlier = origin;
                self.peers.values[i].is_online = false;
                lost.push(self.peers.keys[i].clone());
                proof {
                    origin = origin.push(i as int);
                    assert forall|j: int|
                        0 <= j < i + 1 && before.peers.values[j].stale(now) implies exists|k: int|
                        0 <= k < origin.len() && #[trigger] origin[k] == j by {
                        if j < i {
                            let k = choose|k: int| 0 <= k < earlier.len() && earlier[k] == j;
                            assert(origin[k] == j);
                        } else {
                            assert(origin[origin.len() - 1] == j);
                        }
                    }
                }
            }
            i += 1;
        }
        proof {
            before.peers.lemma_same_keys(&self.peers);
            assert forall|j: int| 0 <= j < self.peers.values.len() implies (
            #[trigger] self.peers.values[j]).device_id@ == self.peers.keys[j]@ by {
                assert(before.peers.values[j].device_id@ == before.peers.keys[j]@);
            }
            assert forall|id: Seq<char>| before.peers().contains_key(id) implies same_but_online(
                #[trigger] self.peers()[id],
                before.peers()[id],
                before.peers()[id].is_online && !before.peers()[id].stale(now),
            ) by {
                assert(before.peers@.contains_key(id));
            }
            assert forall|k: int| 0 <= k < lost@.len() implies before.peers().contains_key(
                #[trigger] lost@[k]@,
            ) && before.peers()[lost@[k]@].stale(now) by {
                before.peers.lemma_index_unique(origin[k]);
            }
            assert forall|k: int, l: int| 0 <= k < l < lost@.len() implies lost@[k]@
                != lost@[l]@ by {
                assert(origin[k] < origin[l]);
                assert(before.peers.keys[origin[k]]@ != before.peers.keys[origin[l]]@);
            }
            assert forall|id: Seq<char>|
                before.peers().contains_key(id) && before.peers()[id].stale(
                    now,
                ) implies exists|k: int| 0 <= k < lost@.len() && #[trigger] lost@[k]@ == id by {
                let j = before.peers.index_of(id);
                before.peers.lemma_index_unique(j);
                let k = choose|k: int| 0 <= k < origin.len() && origin[k] == j;
                assert(lost@[k]@ == id);
            }
        }
        lost
    }

    /// The events that report the peers of a sweep as lost.
    pub fn lost_events(lost: Vec<String>) -> (events: Vec<DiscoveryEvent>)
        ensures
            events@.len() == lost@.len(),
            forall|k: int|
                0 <= k < events@.len() ==> lost_event(#[trigger] events@[k], lost@[k]),
    {
        let mut events: Vec<DiscoveryEvent> = Vec::new();
        let mut i: usize = 0;
        while i < lost.len()
            invariant
                i <= lost.len(),
                events@.len() == i,
                forall|k: int|
                    0 <= k < i ==> lost_event(#[trigger] events@[k], lost@[k]),
            decreases lost.len() - i,
        {
            events.push(DiscoveryEvent::PeerLost { device_id: lost[i].clone() });
            i += 1;
        }
        events
    }

    /// Every peer, each once, as others see it.
    pub fn get_peers(&self) -> (peers: Vec<PeerInfo>)
        requires
            self.wf(),
        ensures
            forall|k: int|
                0 <= k < peers@.len() ==> self.peers().contains_key(
                    (#[trigger] peers@[k]).device_id@,
                ) && self.peers()[peers@[k].device_id@].shown_as(peers@[k]),
            forall|k: int, l: int|
                0 <= k < l < peers@.len() ==> peers@[k].device_id@ != peers@[l].device_id@,
            forall|id: Seq<char>|
                self.peers().contains_key(id) ==> exists|k: int|
                    0 <= k < peers@.len() && (#[trigger] peers@[k]).device_id@ == id,
            peers@.len() == self.peers().dom().len(),
    {
        let listed = self.list(false);
        proof {
            self.lemma_count();
        }
        listed
    }

    /// Every peer that is online, each once, as others see it.
    pub fn get_online_peers(&self) -> (peers: Vec<PeerInfo>)
        requires
            self.wf(),
        ensures
            forall|k: int|
                0 <= k < peers@.len() ==> self.peers().contains_key(
                    (#[trigger] peers@[k]).device_id@,
                ) && self.peers()[peers@[k].device_id@].shown_as(peers@[k]) && peers@[k].is_online,
            forall|k: int, l: int|
                0 <= k < l < peers@.len() ==> peers@[k].device_id@ != peers@[l].device_id@,
            forall|id: Seq<char>|
                self.peers().contains_key(id) && self.peers()[id].is_online ==> exists|k: int|
                    0 <= k < peers@.len() && (#[trigger] peers@[k]).device_id@ == id,
    {
        self.list(true)
    }

    proof fn lemma_count(&self)
        requires
            self.wf(),
        ensures
            self.peers().dom().len() == self.peers.keys.len(),
            self.peers().dom().finite(),
    {
        let keys = self.peers.keys@.map_values(|k: String| k@);
        assert(keys.no_duplicates());
        assert(keys.to_set() =~= self.peers@.dom()) by {
            assert forall|k: Seq<char>| keys.to_set().contains(k) == self.peers@.dom().contains(
                k,
            ) by {
                if keys.contains(k) {
                    let i = choose|i: int| 0 <= i < keys.len() && keys[i] == k;
                    assert(self.peers.keys[i]@ == k);
                }
                if self.peers.contains(k) {
                    let i = self.peers.index_of(k);
                    assert(keys[i] == k);
                }
            }
        }
        keys.unique_seq_to_set();
    }

    fn list(&self, online_only: bool) -> (peers: Vec<PeerInfo>)
        requires
            self.wf(),
        ensures
            forall|k: int|
                0 <= k < peers@.len() ==> self.peers().contains_key(
                    (#[trigger] peers@[k]).device_id@,
                ) && self.peers()[peers@[k].device_id@].shown_as(peers@[k]) && (online_only
                    ==> peers@[k].is_online),
            forall|k: int, l: int|
                0 <= k < l < peers@.len() ==> peers@[k].device_id@ != peers@[l].device_id@,
            forall|id: Seq<char>|
                self.peers().contains_key(id) && (online_only ==> self.peers()[id].is_online)
                    ==> exists|k: int|
                    0 <= k < peers@.len() && (#[trigger] peers@[k]).device_id@ == id,
            !online_only ==> peers@.len() == self.peers.keys.len(),
    {
        let mut peers: Vec<PeerInfo> = Vec::new();
        let ghost mut origin: Seq<int> = Seq::empty();
        let mut i: usize = 0;
        while i < self.peers.values.len()
            invariant
                self.wf(),
                i <= self.peers.values.len(),
                origin.len() == peers@.len(),
                !online_only ==> peers@.len() == i,
                forall|k: int|
                    0 <= k < peers@.len() ==> 0 <= #[trigger] origin[k] < i
                        && self.peers.values[origin[k]].shown_as(peers@[k]) && (online_only
                        ==> peers@[k].is_online),
                forall|k: int, l: int| 0 <= k < l < origin.len() ==> origin[k] < origin[l],
                forall|j: int|
                    0 <= j < i && (online_only ==> self.peers.values[j].is_online) ==> exists|
                        k: int,
                    | 0 <= k < origin.len() && #[trigger] origin[k] == j,
            decreases self.peers.values.len() - i,
        {
            if !online_only || self.peers.values[i].is_online {
                let ghost earlier = origin;
                peers.push(self.peers.values[i].info());
                proof {
                    origin = origin.push(i as int);
                    assert forall|j: int|
                        0 <= j < i + 1 && (online_only
                            ==> self.peers.values[j].is_online) implies exists|k: int|
                        0 <= k < origin.len() && #[trigger] origin[k] == j by {
                        if j < i {
                            let k = choose|k: int| 0 <= k < earlier.len() && earlier[k] == j;
                            assert(origin[k] == j);
                        } else {
                            assert(origin[origin.len() - 1] == j);
                        }
                    }
                }
            }
            i += 1;
        }
        proof {
            assert forall|k: int| 0 <= k < peers@.len() implies self.peers().contains_key(
                (#[trigger] peers@[k]).device_id@,
            ) && self.peers()[peers@[k].device_id@].shown_as(peers@[k]) && (online_only
                ==> peers@[k].is_online) by {
                let j = origin[k];
                assert(self.peers.values[j].device_id@ == self.peers.keys[j]@);
                self.peers.lemma_index_unique(j);
            }
            assert forall|k: int, l: int| 0 <= k < l < peers@.len() implies peers@[k].device_id@
                != peers@[l].device_id@ by {
                assert(origin[k] < origin[l]);
                assert(self.peers.values[origin[k]].device_id@ == self.peers.keys[origin[k]]@);
                assert(self.peers.values[origin[l]].device_id@ == self.peers.keys[origin[l]]@);
            }
            assert forall|id: Seq<char>|
                self.peers().contains_key(id) && (online_only
                    ==> self.peers()[id].is_online) implies exists|k: int|
                0 <= k < peers@.len() && (#[trigger] peers@[k]).device_id@ == id by {
                let j = self.peers.index_of(id);
                self.peers.lemma_index_unique(j);
                let k = choose|k: int| 0 <= k < origin.len() && origin[k] == j;
                assert(self.peers.values[j].device_id@ == self.peers.keys[j]@);
                assert(peers@[k].device_id@ == id);
            }
        }
        peers
    }

    /// The peer of this identifier as others see it, if it is known.
    pub fn get_peer(&self, device_id: &str) -> (peer: Option<PeerInfo>)
        requires
            self.wf(),
        ensures
            match peer {
                Some(info) => self.peers().contains_key(device_id@)
                    && self.peers()[device_id@].shown_as(info) && info.device_id@ == device_id@,
                None => !self.peers().contains_key(device_id@),
            },
    {
        match self.peers.get(device_id) {
            Some(peer) => {
                proof {
                    self.lemma_peer_id(device_id@);
                }
                Some(peer.info())
            },
            None => None,
        }
    }
}

impl Default for DiscoveryManager {
    fn default() -> (manager: Self)
        ensures
            manager.wf(),
            manager.peers() == Map::<Seq<char>, Peer>::empty(),
            !manager.running(),
    {
        DiscoveryManager::new()
    }
}

} // verus!
