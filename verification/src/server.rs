//! The host's registry of connected players, and how it reacts to what they
//! send.
use crate::id::{IDView, ID};
use crate::packet::{bytes_signed_packet, ids_view, serialize_packet, Packet, PacketView};
use crate::peer::DisconnectReason;
use std::collections::HashMap;
use vstd::prelude::*;
use vstd::std_specs::hash::spec_hash_map_iter;
use vstd::std_specs::iter::IteratorSpec;

verus! {

broadcast use vstd::std_specs::hash::group_hash_axioms;

/// How many players a host admits.
pub struct NetSettings {
    pub max_players: usize,
}

impl NetSettings {
    pub fn new(max_players: usize) -> (s: NetSettings)
        ensures
            s.max_players == max_players,
    {
        NetSettings { max_players }
    }

    /// Four players.
    pub fn default() -> (s: NetSettings)
        ensures
            s.max_players == 4,
    {
        NetSettings::new(4)
    }
}

/// Why the host cannot do what it was asked.
#[derive(Debug, Clone, Copy, PartialEq, Eq, Structural)]
pub enum NetError {
    /// No player with this id is connected.
    InvalidPlayerID(u16),
}

/// What the host makes of something a peer sent.
pub enum ServerEvent {
    /// A packet for the game to handle, from the given player.
    ReceivePacket(u16, Packet),
    /// A new player joined under this id.
    PlayerConnect(ID),
    /// The player left for the given reason.
    PlayerDisconnect(u16, DisconnectReason),
    /// Nothing for the game to do.
    Empty,
}

pub enum ServerEventView {
    ReceivePacket(u16, PacketView),
    PlayerConnect(IDView),
    PlayerDisconnect(u16, DisconnectReason),
    Empty,
}

impl View for ServerEvent {
    type V = ServerEventView;

    open spec fn view(&self) -> ServerEventView {
        match self {
            ServerEvent::ReceivePacket(s, p) => ServerEventView::ReceivePacket(*s, p@),
            ServerEvent::PlayerConnect(id) => ServerEventView::PlayerConnect(id@),
            ServerEvent::PlayerDisconnect(s, r) => ServerEventView::PlayerDisconnect(*s, *r),
            ServerEvent::Empty => ServerEventView::Empty,
        }
    }
}

/// What a [`Server`] holds: how many players it admits, the connected
/// players by id, and the id the next player will get.
pub struct ServerView {
    pub max_players: usize,
    pub connections: Map<u16, IDView>,
    pub curr_id: u16,
}

/// The host's registry of players.
pub struct Server {
    settings: NetSettings,
    connections: HashMap<u16, ID>,
    curr_id: u16,
}

impl View for Server {
    type V = ServerView;

    closed spec fn view(&self) -> ServerView {
        ServerView {
            max_players: self.settings.max_players,
            connections: Map::new(
                |k: u16| self.connections@.contains_key(k),
                |k: u16| self.connections@[k]@,
            ),
            curr_id: self.curr_id,
        }
    }
}

impl ServerView {
    /// Each player is filed under their own id, and every id handed out so
    /// far is below the next one.
    pub open spec fn wf(self) -> bool {
        &&& self.connections.dom().finite()
        &&& forall|k: u16| #[trigger]
            self.connections.contains_key(k) ==> self.connections[k].n == k && k < self.curr_id
    }
}

/// Whether the host admits one more player.
pub open spec fn has_room(s: ServerView) -> bool {
    s.connections.dom().len() < s.max_players
}

/// The host after a handshake from an unknown peer named `name`: the peer
/// joins under the next id when there is room, and is turned away
/// otherwise.
pub open spec fn after_handshake(s: ServerView, name: Seq<char>) -> ServerView {
    if has_room(s) {
        ServerView {
            connections: s.connections.insert(s.curr_id, IDView { name, n: s.curr_id }),
            curr_id: (s.curr_id + 1) as u16,
            ..s
        }
    } else {
        s
    }
}

impl Server {
    /// A host with nobody connected yet; the first player gets id 0.
    pub fn host(settings: NetSettings) -> (s: Server)
        ensures
            s@ == (ServerView {
                max_players: settings.max_players,
                connections: Map::empty(),
                curr_id: 0,
            }),
            s@.wf(),
    {
        let s = Server { settings, connections: HashMap::new(), curr_id: 0 };
        assert(s@.connections =~= Map::<u16, IDView>::empty());
        s
    }

    pub fn get_connection_count(&self) -> (n: usize)
        ensures
            n == self@.connections.dom().len(),
    {
        proof {
            assert(self@.connections.dom() =~= self.connections@.dom());
        }
        self.connections.len()
    }

    /// The id the next player will get.
    pub fn next_id(&self) -> (id: u16)
        ensures
            id == self@.curr_id,
    {
        self.curr_id
    }

    /// Whether one more player may join.
    pub fn can_admit(&self) -> (b: bool)
        ensures
            b == has_room(self@),
    {
        self.get_connection_count() < self.settings.max_players
    }

    /// The player with id `id`, if connected.
    pub fn get_conn_by_id(&self, id: u16) -> (r: Option<&ID>)
        ensures
            match r {
                Some(i) => self@.connections.contains_key(id) && i@ == self@.connections[id],
                None => !self@.connections.contains_key(id),
            },
    {
        self.connections.get(&id)
    }

    /// The ids of all connected players, each once.
    pub fn get_connection_ids(&self) -> (ids: Vec<u16>)
        ensures
            ids@.no_duplicates(),
            ids@.to_set() == self@.connections.dom(),
    {
        let mut ids: Vec<u16> = Vec::new();
        let ghost m = self.connections@;
        for (k, v) in it: self.connections.iter()
            invariant
                m == self.connections@,
                it.seq() == spec_hash_map_iter(&self.connections).remaining(),
                it.seq().no_duplicates(),
                ids@.len() == it.index@,
                forall|i: int|
                    0 <= i < ids@.len() ==> #[trigger] ids@[i] == *spec_hash_map_iter(
                        &self.connections,
                    ).remaining()[i].0,
        {
            ids.push(*k);
        }
        proof {
            let s = spec_hash_map_iter(&self.connections).remaining();
            assert forall|i: int, j: int| 0 <= i < j < ids@.len() implies ids@[i] != ids@[j] by {
                assert(m.contains_key(*s[i].0) && m[*s[i].0] == *s[i].1);
                assert(m.contains_key(*s[j].0) && m[*s[j].0] == *s[j].1);
                if ids@[i] == ids@[j] {
                    assert(s[i] == s[j]);
                }
            }
            assert forall|k: u16| #[trigger]
                self@.connections.dom().contains(k) implies ids@.to_set().contains(k) by {
                if m.contains_key(k) {
                    assert(s.contains((&k, &m[k])));
                    let i = choose|i: int| 0 <= i < s.len() && s[i] == (&k, &m[k]);
                    assert(ids@[i] == k);
                    assert(ids@.contains(k));
                }
            }
            assert forall|k: u16| #[trigger]
                ids@.to_set().contains(k) implies self@.connections.dom().contains(k) by {
                let i = choose|i: int| 0 <= i < ids@.len() && ids@[i] == k;
                assert(m.contains_key(*s[i].0));
            }
            assert(ids@.to_set() =~= self@.connections.dom());
        }
        ids
    }

    /// Removes a player; when they were connected, the bytes telling the
    /// others why they left (sent on their behalf) are returned for
    /// sending to every player still connected.
    pub fn disconnect_player(&mut self, player_id: u16, reason: DisconnectReason) -> (r: Option<
        Vec<u8>,
    >)
        ensures
            final(self)@ == (ServerView {
                connections: old(self)@.connections.remove(player_id),
                ..old(self)@
            }),
            old(self)@.connections.contains_key(player_id) <==> r is Some,
            r matches Some(b) ==> b@ == bytes_signed_packet(
                PacketView::PlayerDisconnect { reason },
                player_id,
            ),
            old(self)@.wf() ==> final(self)@.wf(),
    {
        let ghost s0 = self@;
        let removed = self.connections.remove(&player_id);
        proof {
            assert(self@.connections =~= s0.connections.remove(player_id));
        }
        match removed {
            Some(_) => Some(serialize_packet(Packet::PlayerDisconnect { reason }, player_id)),
            None => None,
        }
    }

    /// The bytes of `packet` addressed to player `target_id`, or an error
    /// when no such player is connected.
    pub fn send_unicast(&self, packet: Packet, target_id: u16) -> (r: Result<Vec<u8>, NetError>)
        ensures
            self@.connections.contains_key(target_id) ==> (r matches Ok(b) && b@
                == bytes_signed_packet(packet@, target_id)),
            !self@.connections.contains_key(target_id) ==> r == Err::<Vec<u8>, NetError>(
                NetError::InvalidPlayerID(target_id),
            ),
    {
        if self.connections.contains_key(&target_id) {
            Ok(serialize_packet(packet, target_id))
        } else {
            Err(NetError::InvalidPlayerID(target_id))
        }
    }

    /// Handles a packet from a connected player: a disconnection removes
    /// the player (and gives the bytes to tell the others); anything else
    /// is passed to the game.
    pub fn handle_internal_packet(&mut self, packet: Packet, sender: u16) -> (r: (
        ServerEvent,
        Option<Vec<u8>>,
    ))
        ensures
            match packet@ {
                PacketView::PlayerDisconnect { reason } => {
                    &&& final(self)@ == (ServerView {
                        connections: old(self)@.connections.remove(sender),
                        ..old(self)@
                    })
                    &&& r.0@ == ServerEventView::PlayerDisconnect(sender, reason)
                    &&& (old(self)@.connections.contains_key(sender) <==> r.1 is Some)
                    &&& (r.1 matches Some(b) ==> b@ == bytes_signed_packet(packet@, sender))
                },
                _ => {
                    &&& final(self)@ == old(self)@
                    &&& r.0@ == ServerEventView::ReceivePacket(sender, packet@)
                    &&& r.1 is None
                },
            },
            old(self)@.wf() ==> final(self)@.wf(),
    {
        match packet {
            Packet::PlayerDisconnect { reason } => {
                let bytes = self.disconnect_player(sender, reason);
                (ServerEvent::PlayerDisconnect(sender, reason), bytes)
            },
            other => (ServerEvent::ReceivePacket(sender, other), None),
        }
    }

    /// Handles a packet from a peer that is not connected: a handshake
    /// admits the peer under the next id when there is room; anything else
    /// is dropped.
    pub fn handle_external_packet(&mut self, packet: Packet) -> (ev: ServerEvent)
        requires
            packet@ is Handshake && has_room(old(self)@) ==> old(self)@.curr_id < u16::MAX,
        ensures
            match packet@ {
                PacketView::Handshake { name } => {
                    &&& final(self)@ == after_handshake(old(self)@, name)
                    &&& has_room(old(self)@) ==> ev@ == ServerEventView::PlayerConnect(
                        IDView { name, n: old(self)@.curr_id },
                    )
                    &&& !has_room(old(self)@) ==> ev@ == ServerEventView::Empty
                },
                _ => final(self)@ == old(self)@ && ev@ == ServerEventView::Empty,
            },
            old(self)@.wf() ==> final(self)@.wf(),
    {
        match packet {
            Packet::Handshake { name } => {
                if self.get_connection_count() >= self.settings.max_players {
                    ServerEvent::Empty
                } else {
                    self.on_receive_handshake(name)
                }
            },
            _ => ServerEvent::Empty,
        }
    }

    /// Admits a peer named `name` under the next id.
    fn on_receive_handshake(&mut self, name: String) -> (ev: ServerEvent)
        requires
            old(self)@.curr_id < u16::MAX,
        ensures
            final(self)@ == (ServerView {
                connections: old(self)@.connections.insert(
                    old(self)@.curr_id,
                    IDView { name: name@, n: old(self)@.curr_id },
                ),
                curr_id: (old(self)@.curr_id + 1) as u16,
                ..old(self)@
            }),
            ev@ == ServerEventView::PlayerConnect(IDView { name: name@, n: old(self)@.curr_id }),
            old(self)@.wf() ==> final(self)@.wf(),
    {
        let ghost s0 = self@;
        let new_idn = self.curr_id;
        let new_id = ID::new(name, new_idn);
        self.connections.insert(new_idn, new_id.duplicate());
        self.curr_id = self.curr_id + 1;
        proof {
            assert(self@.connections =~= s0.connections.insert(new_idn, new_id@));
        }
        ServerEvent::PlayerConnect(new_id)
    }

    /// A connected player timed out: they are removed, and the others are
    /// told (the returned bytes).
    pub fn handle_timeout(&mut self, player_id: u16) -> (r: (ServerEvent, Option<Vec<u8>>))
        ensures
            final(self)@ == (ServerView {
                connections: old(self)@.connections.remove(player_id),
                ..old(self)@
            }),
            r.0@ == ServerEventView::PlayerDisconnect(player_id, DisconnectReason::Timeout),
            old(self)@.connections.contains_key(player_id) <==> r.1 is Some,
            r.1 matches Some(b) ==> b@ == bytes_signed_packet(
                PacketView::PlayerDisconnect { reason: DisconnectReason::Timeout },
                player_id,
            ),
            old(self)@.wf() ==> final(self)@.wf(),
    {
        let bytes = self.disconnect_player(player_id, DisconnectReason::Timeout);
        (ServerEvent::PlayerDisconnect(player_id, DisconnectReason::Timeout), bytes)
    }
}

impl Server {
    /// Greets a player who just joined: the reply listing `players`, sent
    /// to the newcomer on their own behalf, and, when others are connected,
    /// the announcement of the newcomer with the ids of the others to send
    /// it to.
    pub fn welcome(&self, newcomer: &ID, players: Vec<ID>) -> (r: (Vec<u8>, Option<(Vec<u8>, Vec<u16>)>))
        ensures
            r.0@ == bytes_signed_packet(
                PacketView::HandshakeReply { players: ids_view(players@) },
                newcomer.n,
            ),
            self@.connections.dom().len() > 1 ==> (r.1 matches Some((b, targets)) && b@
                == bytes_signed_packet(PacketView::PlayerConnect { name: newcomer.name@ }, newcomer.n)
                && targets@.no_duplicates() && targets@.to_set()
                == self@.connections.dom().remove(newcomer.n)),
            self@.connections.dom().len() <= 1 ==> r.1 is None,
    {
        let reply = serialize_packet(Packet::HandshakeReply { players }, newcomer.n);
        if self.get_connection_count() > 1 {
            let ids = self.get_connection_ids();
            let mut targets: Vec<u16> = Vec::new();
            let n = ids.len();
            let mut i: usize = 0;
            while i < n
                invariant
                    n == ids@.len(),
                    i <= n,
                    ids@.no_duplicates(),
                    targets@.no_duplicates(),
                    forall|x: u16| #[trigger] targets@.contains(x) <==> (ids@.take(i as int).contains(x) && x != newcomer.n),
                decreases n - i,
            {
                let ghost old_t = targets@;
                assert(ids@.take(i + 1) =~= ids@.take(i as int).push(ids@[i as int]));
                if ids[i] != newcomer.n {
                    proof {
                        if old_t.contains(ids@[i as int]) {
                            let k = choose|k: int| 0 <= k < i && #[trigger] ids@.take(i as int)[k] == ids@[i as int];
                            assert(ids@[k] == ids@[i as int]);
                        }
                    }
                    targets.push(ids[i]);
                }
                proof {
                    assert forall|x: u16| #[trigger] targets@.contains(x) <==> (ids@.take(i + 1).contains(x) && x != newcomer.n) by {
                        if targets@.contains(x) && !old_t.contains(x) {
                            assert(x == ids@[i as int]);
                            assert(ids@.take(i + 1)[i as int] == x);
                        }
                        if ids@.take(i + 1).contains(x) && x != newcomer.n {
                            let k = choose|k: int| 0 <= k < i + 1 && #[trigger] ids@.take(i + 1)[k] == x;
                            if k < i {
                                assert(ids@.take(i as int)[k] == x);
                            } else {
                                assert(targets@[targets@.len() - 1] == x);
                            }
                        }
                        if old_t.contains(x) {
                            let k = choose|k: int| 0 <= k < old_t.len() && #[trigger] old_t[k] == x;
                            assert(targets@[k] == x);
                        }
                    }
                }
                i = i + 1;
            }
            proof {
                assert(ids@.take(n as int) =~= ids@);
                assert(targets@.to_set() =~= self@.connections.dom().remove(newcomer.n)) by {
                    assert forall|x: u16| targets@.to_set().contains(x) <==> #[trigger] self@.connections.dom().remove(newcomer.n).contains(x) by {
                        assert(ids@.to_set().contains(x) <==> ids@.contains(x));
                    }
                }
            }
            let announcement = serialize_packet(
                Packet::PlayerConnect { name: newcomer.name.clone() },
                newcomer.n,
            );
            (reply, Some((announcement, targets)))
        } else {
            (reply, None)
        }
    }
}

impl Server {
    /// How a packet reaches a group of players: it goes to the targets in
    /// order, up to the first one that is not connected, which is an error.
    /// Returns how many targets receive it, and the error if one stops it.
    pub fn plan_multicast_group(&self, targets: &[u16]) -> (r: (usize, Option<NetError>))
        ensures
            r.0 <= targets@.len(),
            forall|k: int| 0 <= k < r.0 ==> self@.connections.contains_key(#[trigger] targets@[k]),
            r.0 < targets@.len() ==> !self@.connections.contains_key(targets@[r.0 as int]) && r.1
                == Some(NetError::InvalidPlayerID(targets@[r.0 as int])),
            r.0 == targets@.len() ==> r.1 is None,
    {
        let n = targets.len();
        let mut i: usize = 0;
        while i < n
            invariant
                n == targets@.len(),
                i <= n,
                forall|k: int| 0 <= k < i ==> self@.connections.contains_key(#[trigger] targets@[k]),
            decreases n - i,
        {
            if self.get_conn_by_id(targets[i]).is_none() {
                return (i, Some(NetError::InvalidPlayerID(targets[i])));
            }
            i = i + 1;
        }
        (n, None)
    }
}

/// Players join under distinct, increasing ids: the newcomer's id was not
/// in use, and every id in use stays below the next one.
pub proof fn lemma_handshake_fresh_id(s: ServerView, name: Seq<char>)
    requires
        s.wf(),
        has_room(s),
        s.curr_id < u16::MAX,
    ensures
        !s.connections.contains_key(s.curr_id),
        after_handshake(s, name).wf(),
        after_handshake(s, name).connections.dom().len() == s.connections.dom().len() + 1,
{
    assert(s.connections.dom().len() < s.max_players);
    if s.connections.contains_key(s.curr_id) {
        assert(s.curr_id < s.curr_id);
    }
    let s2 = after_handshake(s, name);
    assert forall|k: u16| #[trigger] s2.connections.contains_key(k) implies s2.connections[k].n
        == k && k < s2.curr_id by {
        if k != s.curr_id {
            assert(s.connections.contains_key(k));
        }
    }
}

} // verus!
