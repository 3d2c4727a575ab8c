//! The client's view of a match's connections, and how it reacts to the
//! packets the host sends.
use crate::id::{IDView, ID};
use crate::packet::{ids_view, Packet, PacketView};
use crate::peer::DisconnectReason;
use crate::text::{decimal, push_decimal};
use std::collections::HashMap;
use vstd::prelude::*;
use vstd::std_specs::hash::spec_hash_map_iter;
use vstd::std_specs::iter::IteratorSpec;

verus! {

broadcast use vstd::std_specs::hash::group_hash_axioms;

/// What the client makes of a packet from the host.
pub enum ClientEvent {
    /// A packet for the game to handle, from the given player.
    ReceivePacket(u16, Packet),
    /// The host accepted this client; the number is the client's own id.
    Connect(u16),
    /// The host ended this client's connection.
    Disconnect(DisconnectReason),
    /// Nothing for the game to do.
    Empty,
}

pub enum ClientEventView {
    ReceivePacket(u16, PacketView),
    Connect(u16),
    Disconnect(DisconnectReason),
    Empty,
}

impl View for ClientEvent {
    type V = ClientEventView;

    open spec fn view(&self) -> ClientEventView {
        match self {
            ClientEvent::ReceivePacket(s, p) => ClientEventView::ReceivePacket(*s, p@),
            ClientEvent::Connect(s) => ClientEventView::Connect(*s),
            ClientEvent::Disconnect(r) => ClientEventView::Disconnect(*r),
            ClientEvent::Empty => ClientEventView::Empty,
        }
    }
}

/// What a [`Client`] knows: the players of the match by id, its own id once
/// the host told it, whether it is connected, and the name it chose.
pub struct ClientView {
    pub connections: Map<u16, IDView>,
    pub local_id: Option<IDView>,
    pub connected: bool,
    pub name: Seq<char>,
}

impl ClientView {
    /// Each player is filed under their own number.
    pub open spec fn wf(self) -> bool {
        forall|k: u16| #[trigger] self.connections.contains_key(k) ==> self.connections[k].n == k
    }
}

/// The connection state of a client.
pub struct Client {
    connections: HashMap<u16, ID>,
    local_id: Option<ID>,
    connected: bool,
    name: String,
}

pub open spec fn opt_id_view(id: Option<ID>) -> Option<IDView> {
    match id {
        Some(i) => Some(i@),
        None => None,
    }
}

impl View for Client {
    type V = ClientView;

    closed spec fn view(&self) -> ClientView {
        ClientView {
            connections: Map::new(
                |k: u16| self.connections@.contains_key(k),
                |k: u16| self.connections@[k]@,
            ),
            local_id: opt_id_view(self.local_id),
            connected: self.connected,
            name: self.name@,
        }
    }
}

/// `v` is filed in `m` under some number.
pub open spec fn is_value_of(m: Map<u16, IDView>, v: IDView) -> bool {
    exists|k: u16| m.contains_key(k) && m[k] == v
}

/// The players known after a handshake reply listing `ids`: each is filed
/// under their number, later ones replacing earlier ones.
pub open spec fn register_ids(m: Map<u16, IDView>, ids: Seq<IDView>) -> Map<u16, IDView>
    decreases ids.len(),
{
    if ids.len() == 0 {
        m
    } else {
        register_ids(m, ids.drop_last()).insert(ids.last().n, ids.last())
    }
}

/// The client's own id after a handshake reply sent to `sender` and listing
/// `ids`: the last listed id with the client's number, or `prev` if none is
/// listed.
pub open spec fn own_id(ids: Seq<IDView>, sender: u16, prev: Option<IDView>) -> Option<IDView>
    decreases ids.len(),
{
    if ids.len() == 0 {
        prev
    } else if ids.last().n == sender {
        Some(ids.last())
    } else {
        own_id(ids.drop_last(), sender, prev)
    }
}

/// The client after it handled `p` from `sender`.
pub open spec fn client_after(c: ClientView, p: PacketView, sender: u16) -> ClientView {
    match p {
        PacketView::HandshakeReply { players } => ClientView {
            connections: register_ids(c.connections, players),
            local_id: own_id(players, sender, c.local_id),
            connected: true,
            ..c
        },
        PacketView::PlayerConnect { name } => ClientView {
            connections: c.connections.insert(sender, IDView { name, n: sender }),
            ..c
        },
        PacketView::PlayerDisconnect { .. } => if c.connections.contains_key(sender) {
            ClientView {
                connections: c.connections.remove(sender),
                connected: if sender == 0 || c.connections[sender].n == c.local_id.unwrap().n {
                    false
                } else {
                    c.connected
                },
                ..c
            }
        } else {
            c
        },
        _ => c,
    }
}

/// A player the client knows who leaves is forgotten, whoever they are,
/// and every other known player stays as they were; a leave from an
/// unknown sender changes nothing.
pub proof fn lemma_departed_player_forgotten(c: ClientView, reason: DisconnectReason, sender: u16)
    requires
        c.connections.dom().finite(),
    ensures
        !client_after(c, PacketView::PlayerDisconnect { reason }, sender).connections.contains_key(
            sender,
        ),
        forall|k: u16|
            k != sender ==> (#[trigger] client_after(
                c,
                PacketView::PlayerDisconnect { reason },
                sender,
            ).connections.contains_key(k) <==> c.connections.contains_key(k)),
        forall|k: u16|
            k != sender && c.connections.contains_key(k) ==> #[trigger] client_after(
                c,
                PacketView::PlayerDisconnect { reason },
                sender,
            ).connections[k] == c.connections[k],
        client_after(c, PacketView::PlayerDisconnect { reason }, sender).connections.len()
            == if c.connections.contains_key(sender) {
            c.connections.len() - 1
        } else {
            c.connections.len() as int
        },
        client_after(c, PacketView::PlayerDisconnect { reason }, sender).local_id == c.local_id,
{
    if c.connections.contains_key(sender) {
        assert(c.connections.remove(sender).dom() =~= c.connections.dom().remove(sender));
    }
}

/// A player who joins is known afterwards under the sender's number with
/// the name they gave; nobody else changes, and the client's own id stays.
pub proof fn lemma_joining_player_known(c: ClientView, name: Seq<char>, sender: u16)
    ensures
        client_after(c, PacketView::PlayerConnect { name }, sender).connections.contains_key(
            sender,
        ),
        client_after(c, PacketView::PlayerConnect { name }, sender).connections[sender]
            == (IDView { name, n: sender }),
        forall|k: u16|
            k != sender ==> (#[trigger] client_after(
                c,
                PacketView::PlayerConnect { name },
                sender,
            ).connections.contains_key(k) <==> c.connections.contains_key(k)),
        forall|k: u16|
            k != sender && c.connections.contains_key(k) ==> #[trigger] client_after(
                c,
                PacketView::PlayerConnect { name },
                sender,
            ).connections[k] == c.connections[k],
        client_after(c, PacketView::PlayerConnect { name }, sender).local_id == c.local_id,
        client_after(c, PacketView::PlayerConnect { name }, sender).connected == c.connected,
{
}

/// A handshake reply files every listed player under their number, the
/// later of two with one number winning, and leaves unlisted numbers as
/// they were; the client's own id is the last listed one with the
/// sender's number.
pub proof fn lemma_handshake_registers_listed(
    m: Map<u16, IDView>,
    ids: Seq<IDView>,
    sender: u16,
    prev: Option<IDView>,
    i: int,
    k: u16,
)
    ensures
        0 <= i < ids.len() && (forall|j: int| i < j < ids.len() ==> #[trigger] ids[j].n != ids[i].n)
            ==> register_ids(m, ids).contains_key(ids[i].n) && register_ids(m, ids)[ids[i].n]
            == ids[i],
        (forall|j: int| 0 <= j < ids.len() ==> #[trigger] ids[j].n != k) ==> (register_ids(
            m,
            ids,
        ).contains_key(k) == m.contains_key(k) && (m.contains_key(k) ==> register_ids(m, ids)[k]
            == m[k])),
        0 <= i < ids.len() && ids[i].n == sender && (forall|j: int|
            i < j < ids.len() ==> #[trigger] ids[j].n != sender) ==> own_id(ids, sender, prev)
            == Some(ids[i]),
        (forall|j: int| 0 <= j < ids.len() ==> #[trigger] ids[j].n != sender) ==> own_id(
            ids,
            sender,
            prev,
        ) == prev,
    decreases ids.len(),
{
    if ids.len() > 0 {
        let rest = ids.drop_last();
        lemma_handshake_registers_listed(m, rest, sender, prev, i, k);
        if 0 <= i < ids.len() - 1 && (forall|j: int| i < j < ids.len() ==> #[trigger] ids[j].n
            != ids[i].n) {
            assert(ids[ids.len() - 1].n != ids[i].n);
            assert forall|j: int| i < j < rest.len() implies #[trigger] rest[j].n != rest[i].n by {
                assert(ids[j].n != ids[i].n);
            }
        }
        if (forall|j: int| 0 <= j < ids.len() ==> #[trigger] ids[j].n != k) {
            assert(ids[ids.len() - 1].n != k);
            assert forall|j: int| 0 <= j < rest.len() implies #[trigger] rest[j].n != k by {
                assert(ids[j].n != k);
            }
        }
        if 0 <= i < ids.len() - 1 && ids[i].n == sender && (forall|j: int|
            i < j < ids.len() ==> #[trigger] ids[j].n != sender) {
            assert(ids[ids.len() - 1].n != sender);
            assert forall|j: int| i < j < rest.len() implies #[trigger] rest[j].n != sender by {
                assert(ids[j].n != sender);
            }
        }
        if (forall|j: int| 0 <= j < ids.len() ==> #[trigger] ids[j].n != sender) {
            assert(ids[ids.len() - 1].n != sender);
            assert forall|j: int| 0 <= j < rest.len() implies #[trigger] rest[j].n != sender by {
                assert(ids[j].n != sender);
            }
        }
    }
}

/// What the client reports to the game for `p` from `sender`: a handshake
/// reply connects it; the disconnection of an unknown player is ignored;
/// that of the host is passed on; that of this client ends its connection;
/// everything else is passed on.
pub open spec fn client_event_for(c: ClientView, p: PacketView, sender: u16) -> ClientEventView {
    match p {
        PacketView::HandshakeReply { .. } => ClientEventView::Connect(sender),
        PacketView::PlayerDisconnect { reason } => if !c.connections.contains_key(sender) {
            ClientEventView::Empty
        } else if sender == 0 {
            ClientEventView::ReceivePacket(sender, p)
        } else if c.connections[sender].n == c.local_id.unwrap().n {
            ClientEventView::Disconnect(reason)
        } else {
            ClientEventView::ReceivePacket(sender, p)
        },
        _ => ClientEventView::ReceivePacket(sender, p),
    }
}

/// A client may learn of the disconnection of another player only once it
/// knows its own id.
pub open spec fn can_handle(c: ClientView, p: PacketView, sender: u16) -> bool {
    p is PlayerDisconnect && c.connections.contains_key(sender) && sender != 0 ==> c.local_id is Some
}

proof fn lemma_register_ids_wf(m: Map<u16, IDView>, ids: Seq<IDView>)
    requires
        forall|k: u16| #[trigger] m.contains_key(k) ==> m[k].n == k,
    ensures
        forall|k: u16| #[trigger]
            register_ids(m, ids).contains_key(k) ==> register_ids(m, ids)[k].n == k,
    decreases ids.len(),
{
    if ids.len() > 0 {
        lemma_register_ids_wf(m, ids.drop_last());
        let prev = register_ids(m, ids.drop_last());
        assert forall|k: u16| #[trigger]
            register_ids(m, ids).contains_key(k) implies register_ids(m, ids)[k].n == k by {
            if k != ids.last().n {
                assert(prev.contains_key(k));
            }
        }
    }
}

impl Client {
    /// A client that has not yet heard from the host.
    pub fn new(name: String) -> (c: Client)
        ensures
            c@ == (ClientView {
                connections: Map::empty(),
                local_id: None,
                connected: false,
                name: name@,
            }),
    {
        let c = Client { connections: HashMap::new(), local_id: None, connected: false, name };
        assert(c@.connections =~= Map::<u16, IDView>::empty());
        c
    }

    pub fn get_name(&self) -> (n: &String)
        ensures
            n@ == self@.name,
    {
        &self.name
    }

    pub fn get_local_id(&self) -> (r: Option<ID>)
        ensures
            opt_id_view(r) == self@.local_id,
    {
        match &self.local_id {
            Some(id) => Some(id.duplicate()),
            None => None,
        }
    }

    pub fn is_connected(&self) -> (b: bool)
        ensures
            b == self@.connected,
    {
        self.connected
    }

    /// The player with number `id`, if known.
    pub fn get_connection(&self, id: u16) -> (r: Option<&ID>)
        ensures
            match r {
                Some(i) => self@.connections.contains_key(id) && i@ == self@.connections[id],
                None => !self@.connections.contains_key(id),
            },
    {
        self.connections.get(&id)
    }

    /// The name a player is shown under: the known name, or a placeholder
    /// with the number for an unknown player.
    pub fn get_connection_name(&self, id: u16) -> (s: String)
        ensures
            self@.connections.contains_key(id) ==> s@ == self@.connections[id].name,
            !self@.connections.contains_key(id) ==> s@ == "Unknown player (ID: "@ + decimal(
                id as nat,
            ) + ")"@,
    {
        match self.get_connection(id) {
            Some(i) => i.name.clone(),
            None => {
                let mut s = String::new();
                s.append("Unknown player (ID: ");
                push_decimal(&mut s, id as u32);
                s.append(")");
                s
            },
        }
    }

    /// All known players, each once, in no particular order.
    pub fn get_connections(&self) -> (ids: Vec<ID>)
        ensures
            ids@.len() == self@.connections.dom().len(),
            forall|i: int| 0 <= i < ids@.len() ==> is_value_of(self@.connections, #[trigger] ids@[i]@),
            forall|k: u16| #[trigger]
                self@.connections.contains_key(k) ==> exists|i: int|
                    0 <= i < ids@.len() && ids@[i]@ == self@.connections[k],
    {
        let mut ids: Vec<ID> = Vec::new();
        let ghost m = self.connections@;
        for (k, v) in it: self.connections.iter()
            invariant
                m == self.connections@,
                it.seq() == spec_hash_map_iter(&self.connections).remaining(),
                ids@.len() == it.index@,
                forall|i: int|
                    0 <= i < ids@.len() ==> #[trigger] ids@[i]@ == (*spec_hash_map_iter(
                        &self.connections,
                    ).remaining()[i].1)@,
        {
            ids.push(v.duplicate());
        }
        proof {
            let s = spec_hash_map_iter(&self.connections).remaining();
            assert(s.len() == m.dom().len());
            assert(self@.connections.dom() =~= m.dom());
            assert forall|i: int| 0 <= i < ids@.len() implies is_value_of(
                self@.connections,
                #[trigger] ids@[i]@,
            ) by {
                let k = *s[i].0;
                assert(m.contains_key(k) && m[k] == *s[i].1);
                assert(self@.connections.contains_key(k));
                assert(self@.connections[k] == m[k]@);
            }
            assert forall|k: u16| #[trigger] self@.connections.contains_key(k) implies exists|i: int|
                0 <= i < ids@.len() && ids@[i]@ == self@.connections[k] by {
                assert(m.contains_key(k));
                assert(s.contains((&k, &m[k])));
                let i = choose|i: int| 0 <= i < s.len() && s[i] == (&k, &m[k]);
                assert(ids@[i]@ == m[k]@);
            }
        }
        ids
    }

    /// Updates the connections from a packet the host sent on behalf of
    /// `sender`, and says what the game has to handle.
    pub fn handle_server_packet(&mut self, packet: Packet, sender: u16) -> (ev: ClientEvent)
        requires
            can_handle(old(self)@, packet@, sender),
        ensures
            final(self)@ == client_after(old(self)@, packet@, sender),
            ev@ == client_event_for(old(self)@, packet@, sender),
            old(self)@.wf() ==> final(self)@.wf(),
    {
        let ghost c0 = self@;
        let ghost p0 = packet@;
        match packet {
            Packet::HandshakeReply { players } => {
                let ghost pv = ids_view(players@);
                let n = players.len();
                let mut i: usize = 0;
                while i < n
                    invariant
                        n == players@.len(),
                        i <= n,
                        pv == ids_view(players@),
                        self@ == (ClientView {
                            connections: register_ids(c0.connections, pv.take(i as int)),
                            local_id: own_id(pv.take(i as int), sender, c0.local_id),
                            ..c0
                        }),
                    decreases n - i,
                {
                    let id = &players[i];
                    let ghost before = self.connections@;
                    self.connections.insert(id.n, id.duplicate());
                    if id.n == sender {
                        self.local_id = Some(id.duplicate());
                    }
                    proof {
                        assert(pv.take(i + 1).drop_last() =~= pv.take(i as int));
                        assert(pv.take(i + 1).last() == players@[i as int]@);
                        assert(self@.connections =~= register_ids(
                            c0.connections,
                            pv.take(i + 1),
                        ));
                    }
                    i = i + 1;
                }
                self.connected = true;
                proof {
                    assert(pv.take(n as int) =~= pv);
                    if c0.wf() {
                        lemma_register_ids_wf(c0.connections, pv);
                    }
                }
                ClientEvent::Connect(sender)
            },
            Packet::PlayerConnect { name } => {
                let id = ID::new(name.clone(), sender);
                self.connections.insert(sender, id);
                proof {
                    assert(self@.connections =~= c0.connections.insert(
                        sender,
                        IDView { name: name@, n: sender },
                    ));
                }
                ClientEvent::ReceivePacket(sender, Packet::PlayerConnect { name })
            },
            Packet::PlayerDisconnect { reason } => {
                match self.connections.remove(&sender) {
                    Some(player) => {
                        proof {
                            assert(self@.connections =~= c0.connections.remove(sender));
                        }
                        if sender == 0 {
                            self.connected = false;
                            ClientEvent::ReceivePacket(sender, Packet::PlayerDisconnect { reason })
                        } else {
                            let local_n = match &self.local_id {
                                Some(id) => id.n,
                                None => {
                                    proof {
                                        assert(false);
                                    }
                                    0
                                },
                            };
                            if player.n == local_n {
                                self.connected = false;
                                ClientEvent::Disconnect(reason)
                            } else {
                                ClientEvent::ReceivePacket(
                                    sender,
                                    Packet::PlayerDisconnect { reason },
                                )
                            }
                        }
                    },
                    None => {
                        proof {
                            assert(self@.connections =~= c0.connections);
                        }
                        ClientEvent::Empty
                    },
                }
            },
            other => ClientEvent::ReceivePacket(sender, other),
        }
    }
}

/// A client that receives a handshake reply listing its own id knows that
/// id afterwards and counts as connected.
pub proof fn lemma_handshake_sets_own_id(
    c: ClientView,
    players: Seq<IDView>,
    sender: u16,
    i: int,
)
    requires
        0 <= i < players.len(),
        players[i].n == sender,
    ensures
        client_after(c, PacketView::HandshakeReply { players }, sender).connected,
        own_id(players, sender, c.local_id) matches Some(id) && id.n == sender,
        register_ids(c.connections, players).contains_key(sender),
    decreases players.len(),
{
    if i < players.len() - 1 {
        lemma_handshake_sets_own_id(c, players.drop_last(), sender, i);
    }
}

} // verus!
