//! Players: the parameters they join a match with, and what one step of a
//! player's input does to the ship the player commands.
use crate::cannon::{CannonSide, Volley};
use crate::controller::{event_effect, ControlEvent};
use crate::economy::Deposit;
use crate::id::{bytes_id, lemma_take_id, take_id, IDView, ID};
use crate::packet::{InputState, MousePos};
use crate::ship_data::{bytes_ship_type, lemma_take_ship_type, take_ship_type, ShipData, ShipType};
use crate::ship_mod::{
    get_ship_mod_cost, ship_mod_cost, Attribute, CannonAmmoUpgradeMod, ShipModType,
    AMMO_UPGRADE_SURPLUS_DMG,
};
use crate::wire::string_fits;
use vstd::prelude::*;

verus! {

/// What a player joins a match with: their id and the ship class they sail.
pub struct PlayerParams {
    pub id: ID,
    pub ship_type: ShipType,
}

pub struct PlayerParamsView {
    pub id: IDView,
    pub ship_type: ShipType,
}

impl View for PlayerParams {
    type V = PlayerParamsView;

    open spec fn view(&self) -> PlayerParamsView {
        PlayerParamsView { id: self.id@, ship_type: self.ship_type }
    }
}

/// Player parameters on the wire: the id, then the ship type.
pub open spec fn bytes_player_params(p: PlayerParamsView) -> Seq<u8> {
    bytes_id(p.id) + bytes_ship_type(p.ship_type)
}

pub open spec fn take_player_params(s: Seq<u8>) -> Option<(PlayerParamsView, Seq<u8>)> {
    match take_id(s) {
        Some((id, r)) => match take_ship_type(r) {
            Some((ship_type, r2)) => Some((PlayerParamsView { id, ship_type }, r2)),
            None => None,
        },
        None => None,
    }
}

/// Player parameters whose name fits its length prefix read back as
/// themselves.
pub proof fn lemma_player_params_roundtrip(p: PlayerParamsView, rest: Seq<u8>)
    requires
        string_fits(p.id.name),
    ensures
        take_player_params(bytes_player_params(p) + rest) == Some((p, rest)),
{
    assert(bytes_player_params(p) + rest =~= bytes_id(p.id) + (bytes_ship_type(p.ship_type)
        + rest));
    lemma_take_id(p.id, bytes_ship_type(p.ship_type) + rest);
    lemma_take_ship_type(p.ship_type, rest);
}

impl PlayerParams {
    /// A player who sails a caravel.
    pub fn new(id: ID) -> (p: PlayerParams)
        ensures
            p@ == (PlayerParamsView { id: id@, ship_type: ShipType::Caravel }),
    {
        PlayerParams { id, ship_type: ShipType::Caravel }
    }

    pub fn to_stream(&self, buf: &mut Vec<u8>)
        ensures
            final(buf)@ == old(buf)@ + bytes_player_params(self@),
    {
        self.id.to_stream(buf);
        self.ship_type.to_stream(buf);
        assert(final(buf)@ =~= old(buf)@ + bytes_player_params(self@));
    }

    /// Reads player parameters at `pos`; nothing when the id or the ship
    /// type cannot be read.
    pub fn from_stream(buf: &[u8], pos: usize) -> (r: Option<(PlayerParams, usize)>)
        requires
            pos <= buf@.len(),
        ensures
            match take_player_params(buf@.skip(pos as int)) {
                Some((v, rest)) => r matches Some((w, p)) && w@ == v && pos <= p <= buf@.len()
                    && rest == buf@.skip(p as int),
                None => r is None,
            },
    {
        match ID::from_stream(buf, pos) {
            Some((id, p)) => match ShipType::from_stream(buf, p) {
                Some((ship_type, p2)) => Some((PlayerParams { id, ship_type }, p2)),
                None => None,
            },
            None => None,
        }
    }
}

/// The outcome of a mod purchase a player asked for.
#[derive(Debug, Clone, Copy, PartialEq, Eq, Structural)]
pub enum Purchase {
    /// No purchase was asked for, or the ship is not in a harbour.
    NotRequested,
    /// The treasury cannot pay for the mod; nothing was bought.
    Refused(ShipModType),
    /// The mod was paid for and is to be applied to the ship.
    Bought(ShipModType),
}

/// What one step of a player's input does to their ship.
#[derive(Debug, Clone, Copy, PartialEq, Eq, Structural)]
pub struct InputEffects {
    /// The cannons that fire, if any.
    pub volley: Option<Volley>,
    /// The position the ship steers to, if one was given.
    pub target: Option<MousePos>,
    pub purchase: Purchase,
}

/// Which cannons an input fires: both broadside keys fire every cannon,
/// `q` alone the bow side and `e` alone the port side.
pub open spec fn volley_of(state: InputState) -> Option<Volley> {
    if state.q && state.e {
        Some(Volley::All)
    } else if state.q {
        Some(Volley::Side(CannonSide::Bowside))
    } else if state.e {
        Some(Volley::Side(CannonSide::Portside))
    } else {
        None
    }
}

/// The broadside keys: `q` arms the bow side and `e` the port side, each
/// leaving the other side and the rest of the input as it was, and space
/// arms both; from an idle input they fire the bow side, the port side and
/// every cannon respectively.
pub proof fn lemma_broadside_keys(s: InputState)
    ensures
        event_effect(s, ControlEvent::KeyQ).0 == (InputState { q: true, ..s }),
        event_effect(s, ControlEvent::KeyE).0 == (InputState { e: true, ..s }),
        event_effect(s, ControlEvent::KeySpace).0 == (InputState { q: true, e: true, ..s }),
        !s.q && !s.e ==> volley_of(event_effect(s, ControlEvent::KeyQ).0) == Some(
            Volley::Side(CannonSide::Bowside),
        ),
        !s.q && !s.e ==> volley_of(event_effect(s, ControlEvent::KeyE).0) == Some(
            Volley::Side(CannonSide::Portside),
        ),
        volley_of(event_effect(s, ControlEvent::KeySpace).0) == Some(Volley::All),
{
}

/// The purchase an input leads to, for a ship in or out of a harbour with
/// `balance` escudos: a mod is bought only in a harbour and only when the
/// balance covers its cost.
pub open spec fn purchase_of(state: InputState, in_harbour: bool, balance: u32) -> Purchase {
    if state.buy_mod && in_harbour && state.mod_type is Some {
        let t = state.mod_type.unwrap();
        if balance < ship_mod_cost(t) {
            Purchase::Refused(t)
        } else {
            Purchase::Bought(t)
        }
    } else {
        Purchase::NotRequested
    }
}

/// Applies one step of a player's input to the ship they command: the
/// volley to fire, the target to steer to, and a mod purchase paid from the
/// ship's treasury.
pub fn apply_state(state: &InputState, in_harbour: bool, treasury: &mut Deposit) -> (fx:
    InputEffects)
    ensures
        fx.volley == volley_of(*state),
        fx.target == state.mouse_pos,
        fx.purchase == purchase_of(*state, in_harbour, old(treasury).balance),
        *final(treasury) == (match fx.purchase {
            Purchase::Bought(t) => old(treasury).spent(ship_mod_cost(t)),
            _ => *old(treasury),
        }),
{
    let volley = if state.q && state.e {
        Some(Volley::All)
    } else if state.q {
        Some(Volley::Side(CannonSide::Bowside))
    } else if state.e {
        Some(Volley::Side(CannonSide::Portside))
    } else {
        None
    };
    let mut purchase = Purchase::NotRequested;
    if state.buy_mod && in_harbour {
        match state.mod_type {
            Some(mod_type) => {
                let cost = get_ship_mod_cost(mod_type);
                if treasury.balance < cost {
                    purchase = Purchase::Refused(mod_type);
                } else {
                    treasury.spend(cost);
                    purchase = Purchase::Bought(mod_type);
                }
            },
            None => {},
        }
    }
    InputEffects { volley, target: state.mouse_pos, purchase }
}

/// Every cannon's damage surplus has room for the ammo upgrade.
pub open spec fn ammo_upgrade_fits(cannon_dmgs: Seq<Attribute>) -> bool {
    forall|i: int|
        0 <= i < cannon_dmgs.len() ==> #[trigger] cannon_dmgs[i].surplus + AMMO_UPGRADE_SURPLUS_DMG
            <= u16::MAX
}

/// What carrying out `p` does to a ship (`s0` to `s1`), its recorded mods
/// (`m0` to `m1`) and its cannons' damage (`d0` to `d1`): a repair
/// restores full health; an upgrade is recorded among the mods, the ammo
/// upgrade also raising every cannon's damage; anything else changes
/// nothing.
pub open spec fn purchase_carried_out(
    p: Purchase,
    s0: ShipData,
    s1: ShipData,
    m0: Seq<ShipModType>,
    m1: Seq<ShipModType>,
    d0: Seq<Attribute>,
    d1: Seq<Attribute>,
) -> bool {
    match p {
        Purchase::Bought(ShipModType::Repair) => {
            &&& s1.curr_health == s0.max_health
            &&& s1.max_health == s0.max_health
            &&& s1.ship_type == s0.ship_type
            &&& s1.id == s0.id
            &&& s1.destroy == s0.destroy
            &&& m1 == m0
            &&& d1 == d0
        },
        Purchase::Bought(ShipModType::CannonAmmoUpgrade) => {
            &&& s1 == s0
            &&& m1 == m0.push(ShipModType::CannonAmmoUpgrade)
            &&& d1.len() == d0.len()
            &&& forall|i: int|
                0 <= i < d0.len() ==> #[trigger] d1[i] == d0[i].raised(AMMO_UPGRADE_SURPLUS_DMG)
        },
        Purchase::Bought(t) => {
            &&& s1 == s0
            &&& m1 == m0.push(t)
            &&& d1 == d0
        },
        _ => {
            &&& s1 == s0
            &&& m1 == m0
            &&& d1 == d0
        },
    }
}

/// Carries out a purchase on the ship: a repair restores full health; an
/// upgrade is recorded among the ship's mods and applied, the ammo upgrade
/// raising every cannon's damage (the reload and range upgrades change the
/// cannons' timing and power, which are not whole numbers and are applied
/// by the caller). A refused purchase, or none, changes nothing.
pub fn apply_purchase(
    purchase: Purchase,
    ship: &mut ShipData,
    mods: &mut Vec<ShipModType>,
    cannon_dmgs: &mut Vec<Attribute>,
)
    requires
        purchase == Purchase::Bought(ShipModType::CannonAmmoUpgrade) ==> ammo_upgrade_fits(
            old(cannon_dmgs)@,
        ),
    ensures
        purchase_carried_out(
            purchase,
            *old(ship),
            *final(ship),
            old(mods)@,
            final(mods)@,
            old(cannon_dmgs)@,
            final(cannon_dmgs)@,
        ),
{
    match purchase {
        Purchase::Bought(ShipModType::Repair) => {
            ship.repair();
        },
        Purchase::Bought(ShipModType::CannonAmmoUpgrade) => {
            let ammo = CannonAmmoUpgradeMod;
            ammo.on_apply(cannon_dmgs);
            mods.push(ShipModType::CannonAmmoUpgrade);
        },
        Purchase::Bought(t) => {
            mods.push(t);
        },
        _ => {},
    }
}

/// Applies one step of a player's input to the ship they command, as far
/// as it is whole-number logic: the volley and target are reported, and a
/// mod is paid from the treasury and carried out on the ship.
pub fn apply_input(
    state: &InputState,
    in_harbour: bool,
    treasury: &mut Deposit,
    ship: &mut ShipData,
    mods: &mut Vec<ShipModType>,
    cannon_dmgs: &mut Vec<Attribute>,
) -> (fx: InputEffects)
    requires
        purchase_of(*state, in_harbour, old(treasury).balance) == Purchase::Bought(
            ShipModType::CannonAmmoUpgrade,
        ) ==> ammo_upgrade_fits(old(cannon_dmgs)@),
    ensures
        fx.volley == volley_of(*state),
        fx.target == state.mouse_pos,
        fx.purchase == purchase_of(*state, in_harbour, old(treasury).balance),
        *final(treasury) == (match fx.purchase {
            Purchase::Bought(t) => old(treasury).spent(ship_mod_cost(t)),
            _ => *old(treasury),
        }),
        purchase_carried_out(
            fx.purchase,
            *old(ship),
            *final(ship),
            old(mods)@,
            final(mods)@,
            old(cannon_dmgs)@,
            final(cannon_dmgs)@,
        ),
{
    let fx = apply_state(state, in_harbour, treasury);
    apply_purchase(fx.purchase, ship, mods, cannon_dmgs);
    fx
}

/// A purchase never leaves a treasury short: what is bought is paid in
/// full, and a refused purchase costs nothing.
pub proof fn lemma_purchase_paid(state: InputState, in_harbour: bool, d: Deposit)
    ensures
        purchase_of(state, in_harbour, d.balance) matches Purchase::Bought(t) ==> d.balance
            >= ship_mod_cost(t) && d.spent(ship_mod_cost(t)).balance == d.balance - ship_mod_cost(
            t,
        ),
        purchase_of(state, in_harbour, d.balance) matches Purchase::Refused(t) ==> d.balance
            < ship_mod_cost(t),
        !in_harbour ==> purchase_of(state, in_harbour, d.balance) == Purchase::NotRequested,
{
}

/// A mod asked for in a harbour is bought exactly when the balance covers
/// its price, and refused otherwise; without a request nothing happens.
pub proof fn lemma_purchase_decided(state: InputState, in_harbour: bool, balance: u32, t: ShipModType)
    ensures
        !state.buy_mod ==> purchase_of(state, in_harbour, balance) == Purchase::NotRequested,
        state.buy_mod && in_harbour && state.mod_type == Some(t) && balance >= ship_mod_cost(t)
            ==> purchase_of(state, in_harbour, balance) == Purchase::Bought(t),
        state.buy_mod && in_harbour && state.mod_type == Some(t) && balance < ship_mod_cost(t)
            ==> purchase_of(state, in_harbour, balance) == Purchase::Refused(t),
{
}

pub open spec fn params_views(ps: Seq<PlayerParams>) -> Seq<PlayerParamsView> {
    ps.map_values(|p: PlayerParams| p@)
}

/// The players are in the order of their ids.
pub open spec fn sorted_by_id(ps: Seq<PlayerParamsView>) -> bool {
    forall|i: int, j: int| 0 <= i < j < ps.len() ==> ps[i].id.n <= ps[j].id.n
}

impl PlayerParams {
    /// A copy of these parameters.
    pub fn duplicate(&self) -> (p: PlayerParams)
        ensures
            p@ == self@,
    {
        PlayerParams { id: self.id.duplicate(), ship_type: self.ship_type }
    }
}

/// The players of a match in the order of their ids, as the world places
/// their ships: the same players, sorted.
pub fn sort_players(players: &Vec<PlayerParams>) -> (sorted: Vec<PlayerParams>)
    ensures
        sorted_by_id(params_views(sorted@)),
        params_views(sorted@).to_multiset() == params_views(players@).to_multiset(),
{
    let mut sorted: Vec<PlayerParams> = Vec::new();
    proof {
        assert(params_views(sorted@) =~= params_views(players@.take(0)));
    }
    let n = players.len();
    let mut i: usize = 0;
    while i < n
        invariant
            n == players@.len(),
            i <= n,
            sorted_by_id(params_views(sorted@)),
            params_views(sorted@).to_multiset() == params_views(players@.take(i as int)).to_multiset(),
        decreases n - i,
    {
        let p = players[i].duplicate();
        let key = p.id.n;
        let mut pos: usize = 0;
        while pos < sorted.len() && sorted[pos].id.n <= key
            invariant
                pos <= sorted@.len(),
                forall|k: int| 0 <= k < pos ==> #[trigger] sorted@[k].id.n <= key,
            decreases sorted@.len() - pos,
        {
            pos = pos + 1;
        }
        let ghost before = params_views(sorted@);
        sorted.insert(pos, p);
        proof {
            assert(params_views(sorted@) =~= before.insert(pos as int, p@));
            assert forall|a: int, b: int| 0 <= a < b < params_views(sorted@).len() implies
                params_views(sorted@)[a].id.n <= params_views(sorted@)[b].id.n by {
                let v = params_views(sorted@);
                if b < pos {
                    assert(v[a] == before[a] && v[b] == before[b]);
                } else if b == pos {
                    assert(v[a] == before[a]);
                    assert(sorted@[a].id.n <= key);
                } else if a == pos {
                    assert(v[b] == before[b - 1]);
                    if pos < before.len() {
                        assert(before[pos as int].id.n > key);
                        assert(before[pos as int].id.n <= before[b - 1].id.n);
                    }
                } else if a < pos {
                    assert(v[a] == before[a] && v[b] == before[b - 1]);
                } else {
                    assert(v[a] == before[a - 1] && v[b] == before[b - 1]);
                }
            }
            assert(params_views(players@.take(i + 1)) =~= params_views(players@.take(i as int)).push(
                players@[i as int]@,
            ));
            vstd::seq_lib::to_multiset_insert(before, pos as int, p@);
            vstd::seq_lib::to_multiset_build(params_views(players@.take(i as int)), players@[i as int]@);
        }
        i = i + 1;
    }
    proof {
        assert(players@.take(n as int) =~= players@);
    }
    sorted
}

} // verus!
