//! Ship modifications bought at harbours: their kinds, prices and the
//! base-plus-surplus attributes they change.
use crate::text::{decimal, push_decimal};
use crate::wire::{bytes_u8, lemma_take_u8, read_matches, read_u8, take_u8, write_u8};
use vstd::prelude::*;

verus! {

/// A ship attribute made of a base value and a surplus added by mods.
pub struct Attribute {
    pub base: u16,
    pub surplus: u16,
}

impl Attribute {
    /// The attribute with `val` more surplus.
    pub open spec fn raised(self, val: u16) -> Attribute {
        Attribute { base: self.base, surplus: (self.surplus + val) as u16 }
    }

    /// The attribute with `val` less surplus.
    pub open spec fn lowered(self, val: u16) -> Attribute {
        Attribute { base: self.base, surplus: (self.surplus - val) as u16 }
    }

    pub fn new(base: u16, surplus: u16) -> (a: Attribute)
        ensures
            a.base == base,
            a.surplus == surplus,
    {
        Attribute { base, surplus }
    }

    /// An attribute with the given base and no surplus.
    pub fn setup(base: u16) -> (a: Attribute)
        ensures
            a.base == base,
            a.surplus == 0,
    {
        Self::new(base, 0)
    }

    pub fn add(&mut self, val: u16)
        requires
            old(self).surplus + val <= u16::MAX,
        ensures
            *final(self) == old(self).raised(val),
    {
        self.surplus = self.surplus + val;
    }

    pub fn sub(&mut self, val: u16)
        requires
            old(self).surplus >= val,
        ensures
            *final(self) == old(self).lowered(val),
    {
        self.surplus = self.surplus - val;
    }

    pub fn total(&self) -> (t: u16)
        requires
            self.base + self.surplus <= u16::MAX,
        ensures
            t == self.base + self.surplus,
    {
        self.base + self.surplus
    }
}

/// Adding a surplus and then subtracting it again leaves the attribute as it
/// was, and in between its total grows by exactly that surplus.
pub proof fn lemma_attribute_raise_lower(a: Attribute, val: u16)
    requires
        a.surplus + val <= u16::MAX,
    ensures
        a.raised(val).lowered(val) == a,
        a.raised(val).base + a.raised(val).surplus == a.base + a.surplus + val,
{
}

/// The kinds of modification a ship can buy.
#[derive(Debug, Clone, Copy, PartialEq, Eq, Structural)]
pub enum ShipModType {
    Repair,
    CannonAmmoUpgrade,
    CannonReloadUpgrade,
    CannonRangeUpgrade,
}

/// The byte that stands for a mod type on the wire.
pub open spec fn ship_mod_type_code(t: ShipModType) -> u8 {
    match t {
        ShipModType::Repair => 0,
        ShipModType::CannonAmmoUpgrade => 1,
        ShipModType::CannonReloadUpgrade => 2,
        ShipModType::CannonRangeUpgrade => 3,
    }
}

/// The mod type a byte stands for, if any.
pub open spec fn ship_mod_type_of_code(b: u8) -> Option<ShipModType> {
    if b == 0 {
        Some(ShipModType::Repair)
    } else if b == 1 {
        Some(ShipModType::CannonAmmoUpgrade)
    } else if b == 2 {
        Some(ShipModType::CannonReloadUpgrade)
    } else if b == 3 {
        Some(ShipModType::CannonRangeUpgrade)
    } else {
        None
    }
}

pub open spec fn bytes_ship_mod_type(t: ShipModType) -> Seq<u8> {
    bytes_u8(ship_mod_type_code(t))
}

pub open spec fn take_ship_mod_type(s: Seq<u8>) -> Option<(ShipModType, Seq<u8>)> {
    match take_u8(s) {
        Some((b, r)) => match ship_mod_type_of_code(b) {
            Some(t) => Some((t, r)),
            None => None,
        },
        None => None,
    }
}

pub proof fn lemma_take_ship_mod_type(t: ShipModType, rest: Seq<u8>)
    ensures
        take_ship_mod_type(bytes_ship_mod_type(t) + rest) == Some((t, rest)),
{
    lemma_take_u8(ship_mod_type_code(t), rest);
}

impl ShipModType {
    pub fn to_stream(&self, buf: &mut Vec<u8>)
        ensures
            final(buf)@ == old(buf)@ + bytes_ship_mod_type(*self),
    {
        let code: u8 = match self {
            ShipModType::Repair => 0,
            ShipModType::CannonAmmoUpgrade => 1,
            ShipModType::CannonReloadUpgrade => 2,
            ShipModType::CannonRangeUpgrade => 3,
        };
        write_u8(buf, code);
    }

    /// Reads a mod type at `pos`; nothing when the byte is missing or names
    /// no mod type.
    pub fn from_stream(buf: &[u8], pos: usize) -> (r: Option<(ShipModType, usize)>)
        requires
            pos <= buf@.len(),
        ensures
            read_matches(buf@, pos, r, take_ship_mod_type(buf@.skip(pos as int))),
    {
        match read_u8(buf, pos) {
            Some((b, p)) => {
                if b == 0 {
                    Some((ShipModType::Repair, p))
                } else if b == 1 {
                    Some((ShipModType::CannonAmmoUpgrade, p))
                } else if b == 2 {
                    Some((ShipModType::CannonReloadUpgrade, p))
                } else if b == 3 {
                    Some((ShipModType::CannonRangeUpgrade, p))
                } else {
                    None
                }
            },
            None => None,
        }
    }
}

pub const HARBOUR_REPAIR_COST: u32 = 25;
pub const CANNON_AMMO_UPGRADE_MOD_COST: u32 = 120;
pub const CANNON_RELOAD_UPGRADE_MOD_COST: u32 = 110;
pub const CANNON_RANGE_UPGRADE_MOD_COST: u32 = 100;

/// Price in escudos of each mod type.
pub open spec fn ship_mod_cost(t: ShipModType) -> u32 {
    match t {
        ShipModType::Repair => HARBOUR_REPAIR_COST,
        ShipModType::CannonAmmoUpgrade => CANNON_AMMO_UPGRADE_MOD_COST,
        ShipModType::CannonReloadUpgrade => CANNON_RELOAD_UPGRADE_MOD_COST,
        ShipModType::CannonRangeUpgrade => CANNON_RANGE_UPGRADE_MOD_COST,
    }
}

pub fn get_ship_mod_cost(ship_mod: ShipModType) -> (c: u32)
    ensures
        c == ship_mod_cost(ship_mod),
{
    match ship_mod {
        ShipModType::Repair => HARBOUR_REPAIR_COST,
        ShipModType::CannonAmmoUpgrade => CANNON_AMMO_UPGRADE_MOD_COST,
        ShipModType::CannonReloadUpgrade => CANNON_RELOAD_UPGRADE_MOD_COST,
        ShipModType::CannonRangeUpgrade => CANNON_RANGE_UPGRADE_MOD_COST,
    }
}

/// Damage the ammo upgrade adds to every cannon.
pub const AMMO_UPGRADE_SURPLUS_DMG: u16 = 5;

/// The ammo upgrade mod: it raises the damage surplus of every cannon of the
/// ship it is applied to.
pub struct CannonAmmoUpgradeMod;

impl CannonAmmoUpgradeMod {
    pub fn get_surplus_dmg() -> (d: u16)
        ensures
            d == AMMO_UPGRADE_SURPLUS_DMG,
    {
        AMMO_UPGRADE_SURPLUS_DMG
    }

    pub fn get_name(&self) -> (s: String)
        ensures
            s@ == "Cannon Ammo Upgrade"@,
    {
        String::from_str("Cannon Ammo Upgrade")
    }

    pub fn get_description(&self) -> (s: String)
        ensures
            s@ == "Upgrades damage of all cannons by "@ + decimal(AMMO_UPGRADE_SURPLUS_DMG as nat),
    {
        let mut s = String::from_str("Upgrades damage of all cannons by ");
        push_decimal(&mut s, AMMO_UPGRADE_SURPLUS_DMG as u32);
        s
    }

    pub fn get_type(&self) -> (t: ShipModType)
        ensures
            t == ShipModType::CannonAmmoUpgrade,
    {
        ShipModType::CannonAmmoUpgrade
    }

    /// Adds the surplus damage to each cannon's damage attribute.
    pub fn on_apply(&self, cannon_dmgs: &mut Vec<Attribute>)
        requires
            forall|i: int|
                0 <= i < old(cannon_dmgs)@.len() ==> #[trigger] old(cannon_dmgs)@[i].surplus
                    + AMMO_UPGRADE_SURPLUS_DMG <= u16::MAX,
        ensures
            final(cannon_dmgs)@.len() == old(cannon_dmgs)@.len(),
            forall|i: int|
                0 <= i < final(cannon_dmgs)@.len() ==> #[trigger] final(cannon_dmgs)@[i] == old(
                    cannon_dmgs,
                )@[i].raised(AMMO_UPGRADE_SURPLUS_DMG),
    {
        let n = cannon_dmgs.len();
        let mut i: usize = 0;
        while i < n
            invariant
                n == cannon_dmgs@.len(),
                n == old(cannon_dmgs)@.len(),
                i <= n,
                forall|j: int|
                    0 <= j < n ==> #[trigger] old(cannon_dmgs)@[j].surplus + AMMO_UPGRADE_SURPLUS_DMG
                        <= u16::MAX,
                forall|j: int|
                    0 <= j < i ==> #[trigger] cannon_dmgs@[j] == old(cannon_dmgs)@[j].raised(
                        AMMO_UPGRADE_SURPLUS_DMG,
                    ),
                forall|j: int| i <= j < n ==> #[trigger] cannon_dmgs@[j] == old(cannon_dmgs)@[j],
            decreases n - i,
        {
            let a = Attribute {
                base: cannon_dmgs[i].base,
                surplus: cannon_dmgs[i].surplus + AMMO_UPGRADE_SURPLUS_DMG,
            };
            cannon_dmgs.set(i, a);
            i = i + 1;
        }
    }

    /// Takes the surplus damage off each cannon's damage attribute again.
    pub fn on_remove(&self, cannon_dmgs: &mut Vec<Attribute>)
        requires
            forall|i: int|
                0 <= i < old(cannon_dmgs)@.len() ==> #[trigger] old(cannon_dmgs)@[i].surplus
                    >= AMMO_UPGRADE_SURPLUS_DMG,
        ensures
            final(cannon_dmgs)@.len() == old(cannon_dmgs)@.len(),
            forall|i: int|
                0 <= i < final(cannon_dmgs)@.len() ==> #[trigger] final(cannon_dmgs)@[i] == old(
                    cannon_dmgs,
                )@[i].lowered(AMMO_UPGRADE_SURPLUS_DMG),
    {
        let n = cannon_dmgs.len();
        let mut i: usize = 0;
        while i < n
            invariant
                n == cannon_dmgs@.len(),
                n == old(cannon_dmgs)@.len(),
                i <= n,
                forall|j: int|
                    0 <= j < n ==> #[trigger] old(cannon_dmgs)@[j].surplus
                        >= AMMO_UPGRADE_SURPLUS_DMG,
                forall|j: int|
                    0 <= j < i ==> #[trigger] cannon_dmgs@[j] == old(cannon_dmgs)@[j].lowered(
                        AMMO_UPGRADE_SURPLUS_DMG,
                    ),
                forall|j: int| i <= j < n ==> #[trigger] cannon_dmgs@[j] == old(cannon_dmgs)@[j],
            decreases n - i,
        {
            let a = Attribute {
                base: cannon_dmgs[i].base,
                surplus: cannon_dmgs[i].surplus - AMMO_UPGRADE_SURPLUS_DMG,
            };
            cannon_dmgs.set(i, a);
            i = i + 1;
        }
    }
}

/// Where the first mod of type `t` sits among a ship's applied mods; that
/// one is removed when the ship loses a mod of the type.
pub fn find_mod(mods: &[ShipModType], t: ShipModType) -> (r: Option<usize>)
    ensures
        match r {
            Some(i) => i < mods@.len() && mods@[i as int] == t && forall|k: int|
                0 <= k < i ==> mods@[k] != t,
            None => forall|k: int| 0 <= k < mods@.len() ==> mods@[k] != t,
        },
{
    let n = mods.len();
    let mut i: usize = 0;
    while i < n
        invariant
            n == mods@.len(),
            i <= n,
            forall|k: int| 0 <= k < i ==> mods@[k] != t,
        decreases n - i,
    {
        if mods[i] == t {
            return Some(i);
        }
        i = i + 1;
    }
    None
}

} // verus!
