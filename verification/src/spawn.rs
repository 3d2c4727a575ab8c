//! Bringing a new ship into a match.
use crate::cannon::{cannon_layout, cannon_layout_spec, CannonSide};
use crate::economy::{Deposit, Economy, BASE_SHIP_ESCUDO_BALANCE};
use crate::ship_data::{
    attributes_of, cannons_per_side, cannons_per_side_of, ShipAttributes, ShipData, ShipID,
    ShipType,
};
use vstd::prelude::*;

verus! {

/// The whole-number parts of a newly built ship.
pub struct ShipSpawn {
    pub data: ShipData,
    pub attr: ShipAttributes,
    pub treasury: Deposit,
    /// The side of each cannon, bow side first.
    pub cannons: Vec<CannonSide>,
}

/// Builds a ship of the given class for `id`: it starts at full health
/// with its class's attributes and cannons, and with the starting
/// treasury, whose escudos are registered with the economy as one more
/// deposit.
pub fn spawn_ship(ship_type: ShipType, id: ShipID, economy: &mut Economy) -> (s: ShipSpawn)
    requires
        old(economy).deposits + 1 <= u32::MAX,
        old(economy).escudos_in_circulation + BASE_SHIP_ESCUDO_BALANCE <= u32::MAX,
    ensures
        s.attr == attributes_of(ship_type),
        s.data.ship_type == ship_type,
        s.data.id == id,
        s.data.curr_health == s.attr.health,
        s.data.max_health == s.attr.health,
        !s.data.destroy,
        s.treasury.balance == BASE_SHIP_ESCUDO_BALANCE,
        s.treasury.networth == BASE_SHIP_ESCUDO_BALANCE,
        s.cannons@ == cannon_layout_spec(cannons_per_side_of(ship_type) as nat),
        final(economy).deposits == old(economy).deposits + 1,
        final(economy).escudos_in_circulation == old(economy).escudos_in_circulation
            + BASE_SHIP_ESCUDO_BALANCE,
        final(economy).produced_escudos == old(economy).produced_escudos,
{
    let attr = ShipAttributes::of_type(ship_type);
    economy.add_deposit();
    let cannons = cannon_layout(cannons_per_side(ship_type));
    let data = ShipData::new(ship_type, id, &attr);
    ShipSpawn { data, attr, treasury: Deposit::default(), cannons }
}

} // verus!
