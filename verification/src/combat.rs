//! What collisions and sinkings do to ships and their treasuries.
use crate::economy::{Deposit, Economy};
use crate::entity::EntityType;
use crate::ship_data::{
    BASE_OBJECT_COLLISION_DAMAGE,
    damage_result, health_after, object_collision_damage, spec_object_collision_damage, DamageResult,
    ShipData, MAX_SHIP_DEFENSE,
};
use vstd::prelude::*;

verus! {

/// The damage a ship takes from bumping into another entity: none while
/// its crew is stunned, none from cannon balls (they deal their own
/// damage), and otherwise the object collision damage for its defense when
/// that is not zero.
pub open spec fn spec_entity_collision_damage(stunned: bool, other: EntityType, defense: u16) -> Option<u16> {
    if stunned || other == EntityType::CannonBall || spec_object_collision_damage(defense) == 0 {
        None
    } else {
        Some(spec_object_collision_damage(defense) as u16)
    }
}

/// Bumping into an island, reef or another ship costs a ship the base
/// collision damage unless its defense is full; a stunned crew or a cannon
/// ball never causes collision damage.
pub proof fn lemma_collision_damage(stunned: bool, other: EntityType, defense: u16)
    ensures
        defense < MAX_SHIP_DEFENSE ==> spec_object_collision_damage(defense)
            == BASE_OBJECT_COLLISION_DAMAGE,
        MAX_SHIP_DEFENSE <= defense < 2 * MAX_SHIP_DEFENSE ==> spec_object_collision_damage(
            defense,
        ) == 0,
        stunned || other == EntityType::CannonBall ==> spec_entity_collision_damage(
            stunned,
            other,
            defense,
        ) is None,
        !stunned && other != EntityType::CannonBall && defense < MAX_SHIP_DEFENSE
            ==> spec_entity_collision_damage(stunned, other, defense) == Some(
            BASE_OBJECT_COLLISION_DAMAGE,
        ),
        MAX_SHIP_DEFENSE <= defense < 2 * MAX_SHIP_DEFENSE ==> spec_entity_collision_damage(
            stunned,
            other,
            defense,
        ) is None,
{
    assert(defense < 100 ==> defense / 100 == 0);
    assert(100 <= defense < 200 ==> defense / 100 == 1);
}

pub fn entity_collision_damage(stunned: bool, other: &EntityType, defense: u16) -> (d: Option<u16>)
    requires
        !stunned && *other != EntityType::CannonBall ==> defense < 2 * MAX_SHIP_DEFENSE,
    ensures
        d == spec_entity_collision_damage(stunned, *other, defense),
{
    let is_cannon_ball = match other {
        EntityType::CannonBall => true,
        _ => false,
    };
    if stunned || is_cannon_ball {
        return None;
    }
    let damage = object_collision_damage(defense);
    if damage == 0 {
        None
    } else {
        Some(damage)
    }
}

/// A ship sank at the hands of another: the victim loses the forfeited
/// escudos and the victor earns them together with the payout the economy
/// made for the sinking.
pub fn settle_sinking(victim: &mut Deposit, victor: &mut Deposit, forfeited: u32, payout: u32)
    requires
        forfeited <= old(victim).balance,
        forfeited <= old(victim).networth,
        old(victor).balance + forfeited + payout <= u32::MAX,
        old(victor).networth + forfeited + payout <= u32::MAX,
    ensures
        *final(victim) == old(victim).lost(forfeited),
        *final(victor) == old(victor).earned((forfeited + payout) as u32),
{
    victim.lose(forfeited);
    victor.add(forfeited + payout);
}

/// A ship sank by accident: the forfeited escudos are lost to the sea,
/// leaving the victim's treasury and the circulation alike.
pub fn settle_accident(victim: &mut Deposit, economy: &mut Economy, forfeited: u32)
    requires
        forfeited > 0,
        forfeited <= old(victim).balance,
        forfeited <= old(victim).networth,
        forfeited <= old(economy).escudos_in_circulation,
    ensures
        *final(victim) == old(victim).lost(forfeited),
        final(economy).escudos_in_circulation == old(economy).escudos_in_circulation - forfeited,
        final(economy).produced_escudos == old(economy).produced_escudos,
        final(economy).deposits == old(economy).deposits,
{
    economy.remove(forfeited);
    victim.lose(forfeited);
}

/// The escudos that change hands in a sinking are kept: what the victim
/// loses, the victor gains, on top of the payout.
pub proof fn lemma_sinking_conserves_escudos(victim: Deposit, victor: Deposit, forfeited: u32, payout: u32)
    requires
        forfeited <= victim.balance,
        forfeited <= victim.networth,
        victor.balance + forfeited + payout <= u32::MAX,
        victor.networth + forfeited + payout <= u32::MAX,
    ensures
        victim.lost(forfeited).balance + victor.earned((forfeited + payout) as u32).balance
            == victim.balance + victor.balance + payout,
{
}

impl ShipData {
    /// A sunk ship either respawns at full health or, when it has no spawn
    /// point, stays at the bottom and is marked for removal.
    pub fn sink(&mut self, can_respawn: bool)
        ensures
            can_respawn ==> final(self).curr_health == old(self).max_health && final(self).destroy
                == old(self).destroy,
            !can_respawn ==> final(self).curr_health == 0 && final(self).destroy,
            final(self).max_health == old(self).max_health,
            final(self).ship_type == old(self).ship_type,
            final(self).id == old(self).id,
            final(self).wf(),
    {
        if can_respawn {
            self.repair();
        } else {
            self.set_health(0);
            self.destroy = true;
        }
    }
}

impl ShipData {
    /// A hit on the ship: it takes the damage, and when the hit sinks it,
    /// the sinking follows at once: the ship respawns at full health when
    /// it can, and is marked for removal otherwise.
    pub fn take_hit(&mut self, damage: u16, can_respawn: bool) -> (r: DamageResult)
        requires
            old(self).wf(),
        ensures
            r == damage_result(old(self).curr_health, damage),
            r == DamageResult::Empty ==> final(self).curr_health == old(self).curr_health
                && final(self).destroy == old(self).destroy,
            r is Hit ==> final(self).curr_health == health_after(old(self).curr_health, damage)
                && final(self).destroy == old(self).destroy,
            r == DamageResult::Sink && can_respawn ==> final(self).curr_health
                == old(self).max_health && final(self).destroy == old(self).destroy,
            r == DamageResult::Sink && !can_respawn ==> final(self).curr_health == 0
                && final(self).destroy,
            final(self).max_health == old(self).max_health,
            final(self).ship_type == old(self).ship_type,
            final(self).id == old(self).id,
            final(self).wf(),
    {
        let r = self.take_damage(damage);
        match r {
            DamageResult::Sink => {
                self.sink(can_respawn);
            },
            _ => {},
        }
        r
    }
}

} // verus!
