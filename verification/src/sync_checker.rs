//! Desync detection: every client periodically reports a hash of its
//! simulation state, and the host compares them per generation.
use crate::wire::{bytes_u64, lemma_take_u64, read_matches, read_u64, take_u64, write_u64};
use std::collections::HashMap;
use vstd::bytes::{spec_u16_to_le_bytes, spec_u32_to_le_bytes, u16_to_le_bytes, u32_to_le_bytes};
use vstd::prelude::*;
use vstd::std_specs::hash::spec_hash_map_iter;
use vstd::std_specs::iter::IteratorSpec;

verus! {

broadcast use vstd::std_specs::hash::group_hash_axioms;

/// How many generations pass between two sync reports.
pub const SYNC_STATE_GEN_INTERVAL: u64 = 1;

/// The hash of a client's simulation state at generation `t`.
#[derive(Clone, Copy)]
pub struct SyncState {
    pub t: u64,
    pub hash: u64,
}

/// Two sync states are equal when their hashes are, whatever the generation.
impl PartialEq for SyncState {
    fn eq(&self, other: &Self) -> (r: bool) {
        self.hash == other.hash
    }
}

impl vstd::std_specs::cmp::PartialEqSpecImpl for SyncState {
    open spec fn obeys_eq_spec() -> bool {
        true
    }

    open spec fn eq_spec(&self, other: &SyncState) -> bool {
        self.hash == other.hash
    }
}

/// The name of what `seahash::hash` gives for a byte string.
pub uninterp spec fn seahash_of(bytes: Seq<u8>) -> u64;

/// `seahash::hash`: the SeaHash digest of the bytes, a function of the
/// bytes alone (fixed seeds).
#[verifier::external_body]
fn seahash_hash(buf: &[u8]) -> (h: u64)
    ensures
        h == seahash_of(buf@),
{
    seahash::hash(buf)
}

/// A sync state on the wire: the generation, then the hash.
pub open spec fn bytes_sync_state(s: SyncState) -> Seq<u8> {
    bytes_u64(s.t) + bytes_u64(s.hash)
}

pub open spec fn take_sync_state(s: Seq<u8>) -> Option<(SyncState, Seq<u8>)> {
    match take_u64(s) {
        Some((t, r)) => match take_u64(r) {
            Some((hash, r2)) => Some((SyncState { t, hash }, r2)),
            None => None,
        },
        None => None,
    }
}

pub proof fn lemma_take_sync_state(st: SyncState, rest: Seq<u8>)
    ensures
        take_sync_state(bytes_sync_state(st) + rest) == Some((st, rest)),
{
    assert(bytes_sync_state(st) + rest =~= bytes_u64(st.t) + (bytes_u64(st.hash) + rest));
    lemma_take_u64(st.t, bytes_u64(st.hash) + rest);
    lemma_take_u64(st.hash, rest);
}

/// The part of a ship's state that goes into the sync hash: its health and
/// the bit patterns of its rounded position and rotation.
#[derive(Clone, Copy)]
pub struct ShipSyncRecord {
    pub curr_health: u16,
    pub x_bits: u32,
    pub y_bits: u32,
    pub rot_bits: u32,
}

/// The bytes a ship adds to the hashed buffer, all little-endian.
pub open spec fn ship_sync_bytes(r: ShipSyncRecord) -> Seq<u8> {
    spec_u16_to_le_bytes(r.curr_health) + spec_u32_to_le_bytes(r.x_bits) + spec_u32_to_le_bytes(
        r.y_bits,
    ) + spec_u32_to_le_bytes(r.rot_bits)
}

/// The buffer hashed for a list of ships: their bytes one after another.
pub open spec fn ships_sync_bytes(ships: Seq<ShipSyncRecord>) -> Seq<u8>
    decreases ships.len(),
{
    if ships.len() == 0 {
        Seq::empty()
    } else {
        ships_sync_bytes(ships.drop_last()) + ship_sync_bytes(ships.last())
    }
}

fn extend(buffer: &mut Vec<u8>, mut bytes: Vec<u8>)
    ensures
        final(buffer)@ == old(buffer)@ + bytes@,
{
    buffer.append(&mut bytes);
}

impl SyncState {
    pub fn new(t: u64, hash: u64) -> (s: SyncState)
        ensures
            s.t == t,
            s.hash == hash,
    {
        SyncState { t, hash }
    }

    /// The sync state of generation `t` for the state bytes in `buffer`.
    pub fn gen(t: u64, buffer: &[u8]) -> (s: SyncState)
        ensures
            s.t == t,
            s.hash == seahash_of(buffer@),
    {
        Self::new(t, seahash_hash(buffer))
    }

    /// Appends a ship's bytes to the buffer to be hashed.
    pub fn serialize_ship(buffer: &mut Vec<u8>, ship: &ShipSyncRecord)
        ensures
            final(buffer)@ == old(buffer)@ + ship_sync_bytes(*ship),
    {
        extend(buffer, u16_to_le_bytes(ship.curr_health));
        extend(buffer, u32_to_le_bytes(ship.x_bits));
        extend(buffer, u32_to_le_bytes(ship.y_bits));
        extend(buffer, u32_to_le_bytes(ship.rot_bits));
        assert(final(buffer)@ =~= old(buffer)@ + ship_sync_bytes(*ship));
    }

    /// The sync state of generation `t` for the given ships, in order.
    pub fn gen_from_ships(t: u64, ships: Vec<ShipSyncRecord>) -> (s: SyncState)
        ensures
            s.t == t,
            s.hash == seahash_of(ships_sync_bytes(ships@)),
    {
        let mut buffer: Vec<u8> = Vec::new();
        let n = ships.len();
        let mut i: usize = 0;
        while i < n
            invariant
                n == ships@.len(),
                i <= n,
                buffer@ == ships_sync_bytes(ships@.take(i as int)),
            decreases n - i,
        {
            Self::serialize_ship(&mut buffer, &ships[i]);
            assert(ships@.take(i + 1).drop_last() =~= ships@.take(i as int));
            i = i + 1;
        }
        assert(ships@.take(n as int) =~= ships@);
        Self::gen(t, buffer.as_slice())
    }

    pub fn to_stream(&self, buf: &mut Vec<u8>)
        ensures
            final(buf)@ == old(buf)@ + bytes_sync_state(*self),
    {
        write_u64(buf, self.t);
        write_u64(buf, self.hash);
        assert(final(buf)@ =~= old(buf)@ + bytes_sync_state(*self));
    }

    /// Reads a sync state at `pos`; nothing when bytes are missing.
    pub fn from_stream(buf: &[u8], pos: usize) -> (r: Option<(SyncState, usize)>)
        requires
            pos <= buf@.len(),
        ensures
            read_matches(buf@, pos, r, take_sync_state(buf@.skip(pos as int))),
    {
        match read_u64(buf, pos) {
            Some((t, p)) => match read_u64(buf, p) {
                Some((hash, p2)) => Some((SyncState::new(t, hash), p2)),
                None => None,
            },
            None => None,
        }
    }
}

/// The reports the host has received, per generation and per sender.
pub struct SyncChecker {
    states: HashMap<u64, HashMap<u16, SyncState>>,
}

/// The players whose report for a generation disagrees with the host's: all
/// senders whose hash differs from that of player 0, or nobody when the host
/// has not reported for that generation.
pub open spec fn desynced(reports: Map<u16, SyncState>, ) -> Set<u16> {
    if reports.contains_key(0) {
        Set::new(|id: u16| reports.contains_key(id) && reports[id].hash != reports[0].hash)
    } else {
        Set::empty()
    }
}

impl View for SyncChecker {
    type V = Map<u64, Map<u16, SyncState>>;

    /// The reports as a map from generation to the map from sender to report.
    closed spec fn view(&self) -> Map<u64, Map<u16, SyncState>> {
        Map::new(|t: u64| self.states@.contains_key(t), |t: u64| self.states@[t]@)
    }
}

impl SyncChecker {
    /// The reports received for generation `t`.
    pub open spec fn reports(&self, t: u64) -> Map<u16, SyncState> {
        if self@.contains_key(t) {
            self@[t]
        } else {
            Map::empty()
        }
    }

    pub fn new() -> (c: SyncChecker)
        ensures
            c@ == Map::<u64, Map<u16, SyncState>>::empty(),
    {
        let c = SyncChecker { states: HashMap::new() };
        assert(c@ =~= Map::<u64, Map<u16, SyncState>>::empty());
        c
    }

    /// Records `sender`'s report, replacing an earlier one of the same
    /// generation.
    pub fn add_state(&mut self, sender: u16, state: SyncState)
        ensures
            final(self)@ == old(self)@.insert(
                state.t,
                old(self).reports(state.t).insert(sender, state),
            ),
    {
        let gen_states = self.states.remove(&state.t);
        match gen_states {
            Some(mut gen_states) => {
                gen_states.insert(sender, state);
                self.states.insert(state.t, gen_states);
            },
            None => {
                let mut gen_states = HashMap::new();
                gen_states.insert(sender, state);
                self.states.insert(state.t, gen_states);
            },
        }
        assert(final(self)@ =~= old(self)@.insert(
            state.t,
            old(self).reports(state.t).insert(sender, state),
        ));
    }

    /// The senders whose report for generation `t` disagrees with the host's,
    /// each once.
    pub fn review_desyncs(&mut self, t: u64) -> (ids: Vec<u16>)
        ensures
            final(self)@ == old(self)@,
            ids@.no_duplicates(),
            ids@.to_set() == desynced(old(self).reports(t)),
    {
        let mut ids: Vec<u16> = Vec::new();
        match self.states.get(&t) {
            Some(gen_states) => {
                match gen_states.get(&0) {
                    Some(auth_client_state) => {
                        let auth_hash = auth_client_state.hash;
                        let ghost m = gen_states@;
                        for (id, s) in it: gen_states.iter()
                            invariant
                                m == gen_states@,
                                it.seq() == spec_hash_map_iter(gen_states).remaining(),
                                it.seq().no_duplicates(),
                                m.contains_key(0),
                                m[0].hash == auth_hash,
                                ids@.no_duplicates(),
                                forall|x: u16|
                                    ids@.contains(x) <==> exists|j: int|
                                        0 <= j < it.index@ && *it.seq()[j].0 == x
                                            && it.seq()[j].1.hash != auth_hash,
                        {
                            let ghost k = it.index@;
                            let ghost v = it.seq();
                            let ghost old_ids = ids@;
                            assert(v[k] == (id, s));
                            proof {
                                assert forall|j: int| 0 <= j < k implies *v[j].0 != *id by {
                                    if *v[j].0 == *id {
                                        assert(m[*id] == *v[j].1);
                                        assert(m[*id] == *s);
                                        assert(v[j] == v[k]);
                                    }
                                }
                                assert(!old_ids.contains(*id));
                            }
                            if s.hash != auth_hash {
                                ids.push(*id);
                            }
                            proof {
                                if s.hash != auth_hash {
                                    assert(ids@ == old_ids.push(*id));
                                    assert(ids@[old_ids.len() as int] == *id);
                                } else {
                                    assert(ids@ == old_ids);
                                }
                                assert forall|x: u16|
                                    ids@.contains(x) <==> exists|j: int|
                                        0 <= j < k + 1 && *v[j].0 == x && v[j].1.hash
                                            != auth_hash by {
                                    if ids@.contains(x) {
                                        if old_ids.contains(x) {
                                            let j = choose|j: int|
                                                0 <= j < k && *v[j].0 == x && v[j].1.hash
                                                    != auth_hash;
                                            assert(0 <= j < k + 1);
                                            assert(*v[j].0 == x && v[j].1.hash != auth_hash);
                                            assert(exists|jj: int|
                                                0 <= jj < k + 1 && *v[jj].0 == x && v[jj].1.hash
                                                    != auth_hash);
                                        } else {
                                            let i = choose|i: int|
                                                0 <= i < ids@.len() && ids@[i] == x;
                                            assert(x == *id);
                                            assert(*v[k].0 == x && v[k].1.hash != auth_hash);
                                            assert(exists|jj: int|
                                                0 <= jj < k + 1 && *v[jj].0 == x && v[jj].1.hash
                                                    != auth_hash);
                                        }
                                    }
                                    if exists|j: int|
                                        0 <= j < k + 1 && *v[j].0 == x && v[j].1.hash
                                            != auth_hash {
                                        let j = choose|j: int|
                                            0 <= j < k + 1 && *v[j].0 == x && v[j].1.hash
                                                != auth_hash;
                                        if j < k {
                                            assert(exists|jj: int|
                                                0 <= jj < k && *v[jj].0 == x && v[jj].1.hash
                                                    != auth_hash);
                                            assert(old_ids.contains(x));
                                            let i = choose|i: int|
                                                0 <= i < old_ids.len() && old_ids[i] == x;
                                            assert(ids@[i] == x);
                                            assert(ids@.contains(x));
                                        } else {
                                            assert(x == *id);
                                            assert(ids@.contains(x));
                                        }
                                    }
                                }
                            }
                        }
                    },
                    None => {},
                }
            },
            None => {},
        }
        ids
    }
}

impl SyncChecker {
    /// Records a report and names the players whose report for the same
    /// generation disagrees with the host's; the host drops them.
    pub fn receive_report(&mut self, sender: u16, state: SyncState) -> (ids: Vec<u16>)
        ensures
            final(self)@ == old(self)@.insert(
                state.t,
                old(self).reports(state.t).insert(sender, state),
            ),
            ids@.no_duplicates(),
            ids@.to_set() == desynced(old(self).reports(state.t).insert(sender, state)),
    {
        self.add_state(sender, state);
        self.review_desyncs(state.t)
    }
}

/// The host is never found out of sync with itself, and a player whose
/// hash equals the host's is never found out of sync.
pub proof fn lemma_host_never_desynced(reports: Map<u16, SyncState>, id: u16)
    ensures
        !desynced(reports).contains(0),
        reports.contains_key(0) && reports.contains_key(id) && reports[id].hash == reports[0].hash
            ==> !desynced(reports).contains(id),
        reports.contains_key(0) && reports.contains_key(id) && reports[id].hash != reports[0].hash
            ==> desynced(reports).contains(id),
{
}

} // verus!
