//! Ship types and identities, and the hull arithmetic of damage and repair.
use crate::id::ID;
use crate::text::{decimal, push_decimal};
use crate::wire::{bytes_u8, lemma_take_u8, read_matches, read_u8, take_u8, write_u8};
use vstd::prelude::*;

verus! {

/// The ship classes a player can sail.
#[derive(Debug, Clone, Copy, PartialEq, Eq, Structural)]
pub enum ShipType {
    Caravel,
    Schooner,
    Galleon,
}

pub open spec fn ship_type_code(t: ShipType) -> u8 {
    match t {
        ShipType::Caravel => 0,
        ShipType::Galleon => 1,
        ShipType::Schooner => 2,
    }
}

pub open spec fn ship_type_of_code(b: u8) -> Option<ShipType> {
    if b == 0 {
        Some(ShipType::Caravel)
    } else if b == 1 {
        Some(ShipType::Galleon)
    } else if b == 2 {
        Some(ShipType::Schooner)
    } else {
        None
    }
}

pub open spec fn bytes_ship_type(t: ShipType) -> Seq<u8> {
    bytes_u8(ship_type_code(t))
}

pub open spec fn take_ship_type(s: Seq<u8>) -> Option<(ShipType, Seq<u8>)> {
    match take_u8(s) {
        Some((b, r)) => match ship_type_of_code(b) {
            Some(t) => Some((t, r)),
            None => None,
        },
        None => None,
    }
}

pub proof fn lemma_take_ship_type(t: ShipType, rest: Seq<u8>)
    ensures
        take_ship_type(bytes_ship_type(t) + rest) == Some((t, rest)),
{
    lemma_take_u8(ship_type_code(t), rest);
}

impl ShipType {
    pub fn to_stream(&self, buf: &mut Vec<u8>)
        ensures
            final(buf)@ == old(buf)@ + bytes_ship_type(*self),
    {
        let code: u8 = match self {
            ShipType::Caravel => 0,
            ShipType::Galleon => 1,
            ShipType::Schooner => 2,
        };
        write_u8(buf, code);
    }

    /// Reads a ship type at `pos`; nothing when the byte is missing or names
    /// no ship type.
    pub fn from_stream(buf: &[u8], pos: usize) -> (r: Option<(ShipType, usize)>)
        requires
            pos <= buf@.len(),
        ensures
            read_matches(buf@, pos, r, take_ship_type(buf@.skip(pos as int))),
    {
        match read_u8(buf, pos) {
            Some((b, p)) => {
                if b == 0 {
                    Some((ShipType::Caravel, p))
                } else if b == 1 {
                    Some((ShipType::Galleon, p))
                } else if b == 2 {
                    Some((ShipType::Schooner, p))
                } else {
                    None
                }
            },
            None => None,
        }
    }
}

/// Who commands a ship: a player (and whether it is the local one) or the
/// computer.
pub enum ShipID {
    Player(ID, bool),
    Computer(String),
}

/// The name a ship is shown under: `name^number` for a player, the plain
/// name for the computer.
pub open spec fn ship_id_text(id: &ShipID) -> Seq<char> {
    match id {
        ShipID::Player(pid, _) => pid.name@ + seq!['^'] + decimal(pid.n as nat),
        ShipID::Computer(name) => name@,
    }
}

impl ShipID {
    pub fn to_string(&self) -> (s: String)
        ensures
            s@ == ship_id_text(self),
    {
        match self {
            ShipID::Player(pid, _) => {
                let mut s = pid.name.clone();
                proof { reveal_strlit("^"); }
                s.append("^");
                push_decimal(&mut s, pid.n as u32);
                s
            },
            ShipID::Computer(name) => name.clone(),
        }
    }

    pub fn is_local_player(&self) -> (b: bool)
        ensures
            b == (match self {
                ShipID::Player(_, local) => *local,
                ShipID::Computer(_) => false,
            }),
    {
        match self {
            ShipID::Player(_, is_local_player) => *is_local_player,
            _ => false,
        }
    }
}

/// What a hit did to a ship.
#[derive(Debug, Clone, Copy, PartialEq, Eq, Structural)]
pub enum DamageResult {
    /// The ship took this much damage and stays afloat.
    Hit(u16),
    /// The ship sank.
    Sink,
    /// Nothing happened.
    Empty,
}

/// The state of a ship's hull and crew that damage and repair act on.
pub struct ShipData {
    pub curr_health: u16,
    pub max_health: u16,
    pub ship_type: ShipType,
    pub id: ShipID,
    pub destroy: bool,
}

/// The health left after taking `damage`: damage beyond the current health
/// is absorbed.
pub open spec fn health_after(curr: u16, damage: u16) -> u16 {
    if damage > curr {
        0
    } else {
        (curr - damage) as u16
    }
}

/// What taking `damage` at health `curr` results in.
pub open spec fn damage_result(curr: u16, damage: u16) -> DamageResult {
    if damage == 0 {
        DamageResult::Empty
    } else if health_after(curr, damage) == 0 {
        DamageResult::Sink
    } else {
        DamageResult::Hit(damage)
    }
}

impl ShipData {
    /// The health never exceeds the maximum.
    pub open spec fn wf(&self) -> bool {
        self.curr_health <= self.max_health
    }

    pub fn is_sunk(&self) -> (b: bool)
        ensures
            b == (self.curr_health == 0),
    {
        self.curr_health == 0
    }

    pub fn set_health(&mut self, curr_health: u16)
        requires
            curr_health <= old(self).max_health,
        ensures
            final(self).curr_health == curr_health,
            final(self).max_health == old(self).max_health,
            final(self).ship_type == old(self).ship_type,
            final(self).id == old(self).id,
            final(self).destroy == old(self).destroy,
            final(self).wf(),
    {
        self.curr_health = curr_health;
    }

    /// Restores full health.
    pub fn repair(&mut self)
        ensures
            final(self).curr_health == old(self).max_health,
            final(self).max_health == old(self).max_health,
            final(self).ship_type == old(self).ship_type,
            final(self).id == old(self).id,
            final(self).destroy == old(self).destroy,
            final(self).wf(),
    {
        let max = self.max_health;
        self.set_health(max);
    }

    /// Takes `damage`; at most the remaining health is lost.
    pub fn take_damage(&mut self, damage: u16) -> (r: DamageResult)
        requires
            old(self).wf(),
        ensures
            r == damage_result(old(self).curr_health, damage),
            damage == 0 ==> final(self).curr_health == old(self).curr_health,
            damage > 0 ==> final(self).curr_health == health_after(
                old(self).curr_health,
                damage,
            ),
            damage <= old(self).curr_health ==> final(self).curr_health + damage == old(
                self,
            ).curr_health,
            damage >= old(self).curr_health ==> final(self).curr_health == 0,
            final(self).max_health == old(self).max_health,
            final(self).ship_type == old(self).ship_type,
            final(self).id == old(self).id,
            final(self).destroy == old(self).destroy,
            final(self).wf(),
    {
        if damage == 0 {
            return DamageResult::Empty;
        }
        let mut damage = damage;
        if self.curr_health < damage {
            damage = self.curr_health;
        }
        let remaining_health = self.curr_health - damage;
        self.set_health(remaining_health);
        if self.is_sunk() {
            DamageResult::Sink
        } else {
            DamageResult::Hit(damage)
        }
    }
}

/// Damage never raises health, and a ship sinks exactly when the damage
/// reaches its health.
pub proof fn lemma_damage_monotone(curr: u16, damage: u16)
    ensures
        health_after(curr, damage) <= curr,
        damage > 0 ==> (damage_result(curr, damage) == DamageResult::Sink <==> damage >= curr),
{
}

/// A hit costs exactly the damage dealt: below the current health the ship
/// keeps the difference and reports a hit of that damage; at or beyond it
/// the ship is left with nothing and sinks.
pub proof fn lemma_hit_costs_the_damage(curr: u16, damage: u16)
    ensures
        damage <= curr ==> health_after(curr, damage) + damage == curr,
        damage >= curr ==> health_after(curr, damage) == 0,
        0 < damage < curr ==> damage_result(curr, damage) == DamageResult::Hit(damage),
        0 < damage && curr <= damage ==> damage_result(curr, damage) == DamageResult::Sink,
        damage == 0 ==> damage_result(curr, damage) == DamageResult::Empty,
{
}

/// The whole-number attributes of a ship class: hull strength, defense
/// (1 to 100), the damage of each cannon ball and of ramming.
#[derive(Debug, Clone, Copy, PartialEq, Eq, Structural)]
pub struct ShipAttributes {
    pub health: u16,
    pub defense: u16,
    pub cannon_damage: u16,
    pub ram_damage: u16,
}

impl ShipAttributes {
    /// A medium two-master.
    pub fn caravel() -> (a: ShipAttributes)
        ensures
            a == (ShipAttributes { health: 140, defense: 60, cannon_damage: 15, ram_damage: 20 }),
    {
        ShipAttributes { health: 140, defense: 60, cannon_damage: 15, ram_damage: 20 }
    }

    /// A heavy square rig.
    pub fn galleon() -> (a: ShipAttributes)
        ensures
            a == (ShipAttributes { health: 160, defense: 80, cannon_damage: 15, ram_damage: 30 }),
    {
        ShipAttributes { health: 160, defense: 80, cannon_damage: 15, ram_damage: 30 }
    }

    /// A light fore-and-aft rig.
    pub fn schooner() -> (a: ShipAttributes)
        ensures
            a == (ShipAttributes { health: 120, defense: 35, cannon_damage: 15, ram_damage: 15 }),
    {
        ShipAttributes { health: 120, defense: 35, cannon_damage: 15, ram_damage: 15 }
    }

    /// The attributes of a ship class.
    pub fn of_type(ship_type: ShipType) -> (a: ShipAttributes)
        ensures
            a == attributes_of(ship_type),
    {
        match ship_type {
            ShipType::Caravel => ShipAttributes::caravel(),
            ShipType::Galleon => ShipAttributes::galleon(),
            ShipType::Schooner => ShipAttributes::schooner(),
        }
    }

    /// How many base stun lengths a hit stuns the ship: full defense
    /// divided by the ship's defense, rounded down.
    pub fn stun_factor(&self) -> (f: u16)
        requires
            self.defense > 0,
        ensures
            f == MAX_SHIP_DEFENSE / self.defense,
    {
        MAX_SHIP_DEFENSE / self.defense
    }
}

/// The attributes of each ship class.
pub open spec fn attributes_of(t: ShipType) -> ShipAttributes {
    match t {
        ShipType::Caravel => ShipAttributes {
            health: 140,
            defense: 60,
            cannon_damage: 15,
            ram_damage: 20,
        },
        ShipType::Galleon => ShipAttributes {
            health: 160,
            defense: 80,
            cannon_damage: 15,
            ram_damage: 30,
        },
        ShipType::Schooner => ShipAttributes {
            health: 120,
            defense: 35,
            cannon_damage: 15,
            ram_damage: 15,
        },
    }
}

/// How many cannons each side of a ship class carries.
pub open spec fn cannons_per_side_of(t: ShipType) -> u32 {
    match t {
        ShipType::Caravel => 4u32,
        ShipType::Galleon => 5u32,
        ShipType::Schooner => 3u32,
    }
}

/// The cannons mounted on each side of a ship class.
pub fn cannons_per_side(ship_type: ShipType) -> (n: u32)
    ensures
        n == cannons_per_side_of(ship_type),
{
    match ship_type {
        ShipType::Caravel => 4,
        ShipType::Galleon => 5,
        ShipType::Schooner => 3,
    }
}

impl ShipData {
    /// A newly built ship: at full health and not marked for removal.
    pub fn new(ship_type: ShipType, id: ShipID, attr: &ShipAttributes) -> (d: ShipData)
        ensures
            d.curr_health == attr.health,
            d.max_health == attr.health,
            d.ship_type == ship_type,
            d.id == id,
            !d.destroy,
            d.wf(),
    {
        ShipData { curr_health: attr.health, max_health: attr.health, ship_type, id, destroy: false }
    }
}

pub const BASE_OBJECT_COLLISION_DAMAGE: u16 = 20;
pub const MAX_SHIP_DEFENSE: u16 = 100;

/// Damage a ship takes from hitting an object: the base damage, of which a
/// ship with full defense absorbs all (integer division of the defense).
pub open spec fn spec_object_collision_damage(defense: u16) -> int {
    BASE_OBJECT_COLLISION_DAMAGE - BASE_OBJECT_COLLISION_DAMAGE * (defense / MAX_SHIP_DEFENSE)
}

pub fn object_collision_damage(defense: u16) -> (d: u16)
    requires
        defense < 2 * MAX_SHIP_DEFENSE,
    ensures
        d == spec_object_collision_damage(defense),
{
    let absorption = BASE_OBJECT_COLLISION_DAMAGE * (defense / MAX_SHIP_DEFENSE);
    BASE_OBJECT_COLLISION_DAMAGE - absorption
}

} // verus!
