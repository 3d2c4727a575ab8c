use blackbeard::cannon::{cannon_layout, cannons_to_fire, CannonBallState, CannonSide, Volley};
use blackbeard::economy::{Deposit, Economy, BASE_ESCUDO_PAYOUT, BASE_SHIP_ESCUDO_BALANCE};
use blackbeard::entity::{EntityType, ObjectType};
use blackbeard::id::ID;
use blackbeard::packet::{InputState, MousePos};
use blackbeard::spawn::spawn_ship;
use blackbeard::diagnostics::{collision_log_line, CollisionKind};
use blackbeard::player::{apply_input, apply_purchase, apply_state, Purchase};
use blackbeard::ship_data::{
    cannons_per_side, object_collision_damage, DamageResult, ShipAttributes, ShipData, ShipID,
    ShipType,
};
use blackbeard::ship_mod::{find_mod, get_ship_mod_cost, Attribute, CannonAmmoUpgradeMod, ShipModType};

#[test]
fn deposit_earn_spend_lose() {
    let mut d = Deposit::default();
    assert_eq!((d.balance, d.networth), (BASE_SHIP_ESCUDO_BALANCE, 100));
    d.add(50);
    assert_eq!((d.balance, d.networth), (150, 150));
    d.spend(30);
    assert_eq!((d.balance, d.networth), (120, 150));
    d.lose(20);
    assert_eq!((d.balance, d.networth), (100, 130));
    let n = Deposit::new(7);
    assert_eq!((n.balance, n.networth), (7, 7));
}

#[test]
fn deposit_earn_then_lose_restores() {
    let mut d = Deposit::new(40);
    d.add(25);
    d.lose(25);
    assert_eq!((d.balance, d.networth), (40, 40));
}

#[test]
fn economy_payout_at_reserve() {
    let mut e = Economy::new();
    e.add_deposit();
    e.add_deposit();
    assert_eq!(e.deposits, 2);
    assert_eq!(e.escudos_in_circulation, 200);
    assert_eq!(e.reserve_escudos(), 200);
    // At the reserve each sinking pays the base payout.
    assert_eq!(e.payout(), BASE_ESCUDO_PAYOUT);
    assert_eq!(e.escudos_in_circulation, 230);
    assert_eq!(e.produced_escudos, 30);
    // Inflation lowers the next payout: 200 * 30 / 230 = 26.
    assert_eq!(e.payout(), 26);
}

#[test]
fn economy_produce_and_remove() {
    let mut e = Economy::new();
    e.add_deposit();
    e.produce(10);
    assert_eq!((e.escudos_in_circulation, e.produced_escudos), (110, 10));
    e.remove(15);
    assert_eq!((e.escudos_in_circulation, e.produced_escudos), (95, 10));
}

#[test]
fn economy_total_payout_and_bonus() {
    assert_eq!(Economy::bonus_surplus(100), None);
    assert_eq!(Economy::bonus_surplus(250), Some(150));
    let mut e = Economy::new();
    e.add_deposit();
    assert_eq!(e.total_payout(15), 45);
    assert_eq!(e.escudos_in_circulation, 130);
}

#[test]
fn attributes_raise_and_lower() {
    let mut a = Attribute::setup(15);
    assert_eq!((a.base, a.surplus), (15, 0));
    a.add(5);
    assert_eq!(a.total(), 20);
    a.sub(5);
    assert_eq!(a.total(), 15);
    let b = Attribute::new(3, 4);
    assert_eq!(b.total(), 7);
}

#[test]
fn ammo_upgrade_applies_and_removes() {
    let m = CannonAmmoUpgradeMod;
    assert_eq!(CannonAmmoUpgradeMod::get_surplus_dmg(), 5);
    assert_eq!(m.get_name(), "Cannon Ammo Upgrade");
    assert_eq!(m.get_description(), "Upgrades damage of all cannons by 5");
    assert_eq!(m.get_type(), ShipModType::CannonAmmoUpgrade);
    let mut dmgs = vec![Attribute::setup(15), Attribute::new(15, 5)];
    m.on_apply(&mut dmgs);
    assert_eq!(dmgs[0].total(), 20);
    assert_eq!(dmgs[1].total(), 25);
    m.on_remove(&mut dmgs);
    assert_eq!(dmgs[0].total(), 15);
    assert_eq!(dmgs[1].surplus, 5);
}

#[test]
fn ship_mod_costs() {
    assert_eq!(get_ship_mod_cost(ShipModType::Repair), 25);
    assert_eq!(get_ship_mod_cost(ShipModType::CannonAmmoUpgrade), 120);
    assert_eq!(get_ship_mod_cost(ShipModType::CannonReloadUpgrade), 110);
    assert_eq!(get_ship_mod_cost(ShipModType::CannonRangeUpgrade), 100);
}

#[test]
fn ship_mod_type_codes() {
    let mut buf = Vec::new();
    ShipModType::CannonReloadUpgrade.to_stream(&mut buf);
    assert_eq!(buf, vec![2]);
    assert_eq!(ShipModType::from_stream(&buf, 0), Some((ShipModType::CannonReloadUpgrade, 1)));
    assert_eq!(ShipModType::from_stream(&[4], 0), None);
}

#[test]
fn ship_type_codes() {
    let mut buf = Vec::new();
    ShipType::Galleon.to_stream(&mut buf);
    ShipType::Schooner.to_stream(&mut buf);
    assert_eq!(buf, vec![1, 2]);
    assert_eq!(ShipType::from_stream(&buf, 1), Some((ShipType::Schooner, 2)));
    assert_eq!(ShipType::from_stream(&[3], 0), None);
}

#[test]
fn ship_ids() {
    let p = ShipID::Player(ID::new("Anne".to_string(), 12), true);
    assert_eq!(p.to_string(), "Anne^12");
    assert!(p.is_local_player());
    let c = ShipID::Computer("Flying Dutchman".to_string());
    assert_eq!(c.to_string(), "Flying Dutchman");
    assert!(!c.is_local_player());
}

#[test]
fn ship_damage_and_repair() {
    let attr = ShipAttributes::caravel();
    let mut d = ShipData::new(ShipType::Caravel, ShipID::Computer("Bot".to_string()), &attr);
    assert_eq!((d.curr_health, d.max_health), (140, 140));
    assert_eq!(d.take_damage(0), DamageResult::Empty);
    assert_eq!(d.take_damage(40), DamageResult::Hit(40));
    assert_eq!(d.curr_health, 100);
    assert!(!d.is_sunk());
    d.repair();
    assert_eq!(d.curr_health, 140);
    assert_eq!(d.take_damage(500), DamageResult::Sink);
    assert_eq!(d.curr_health, 0);
    assert!(d.is_sunk());
    d.set_health(10);
    assert_eq!(d.curr_health, 10);
    assert!(!d.destroy);
}

#[test]
fn ship_classes() {
    assert_eq!(ShipAttributes::galleon().health, 160);
    assert_eq!(ShipAttributes::schooner().defense, 35);
    assert_eq!(ShipAttributes::of_type(ShipType::Caravel), ShipAttributes::caravel());
    assert_eq!(ShipAttributes::caravel().stun_factor(), 1);
    assert_eq!(ShipAttributes::schooner().stun_factor(), 2);
    assert_eq!(cannons_per_side(ShipType::Caravel), 4);
    assert_eq!(cannons_per_side(ShipType::Galleon), 5);
    assert_eq!(cannons_per_side(ShipType::Schooner), 3);
}

#[test]
fn object_collisions_hurt_weak_hulls_only() {
    assert_eq!(object_collision_damage(60), 20);
    assert_eq!(object_collision_damage(100), 0);
    assert_eq!(object_collision_damage(150), 0);
}

#[test]
fn cannon_layout_and_volleys() {
    let sides = cannon_layout(2);
    assert_eq!(
        sides,
        vec![CannonSide::Bowside, CannonSide::Bowside, CannonSide::Portside, CannonSide::Portside]
    );
    assert_eq!(cannons_to_fire(&sides, Volley::Side(CannonSide::Portside)), vec![2, 3]);
    assert_eq!(cannons_to_fire(&sides, Volley::All), vec![0, 1, 2, 3]);
    assert_eq!(cannons_to_fire(&sides, Volley::Side(CannonSide::Nose)), Vec::<usize>::new());
    assert_ne!(CannonBallState::Hit, CannonBallState::Miss);
}

#[test]
fn player_input_fires_and_buys() {
    let target = MousePos { x_bits: 10f32.to_bits(), y_bits: 20f32.to_bits() };
    let state = InputState::new(
        true,
        true,
        true,
        true,
        Some(ShipModType::CannonRangeUpgrade),
        Some(target),
    );
    let mut treasury = Deposit::new(150);
    let fx = apply_state(&state, true, &mut treasury);
    assert_eq!(fx.volley, Some(Volley::All));
    assert_eq!(fx.target, Some(target));
    assert_eq!(fx.purchase, Purchase::Bought(ShipModType::CannonRangeUpgrade));
    assert_eq!((treasury.balance, treasury.networth), (50, 150));

    // Not enough escudos left for a second upgrade.
    let fx = apply_state(&state, true, &mut treasury);
    assert_eq!(fx.purchase, Purchase::Refused(ShipModType::CannonRangeUpgrade));
    assert_eq!(treasury.balance, 50);

    // Outside a harbour nothing is bought.
    let fx = apply_state(&state, false, &mut treasury);
    assert_eq!(fx.purchase, Purchase::NotRequested);
}

#[test]
fn player_input_sides() {
    let mut t = Deposit::default();
    let q = InputState::new(false, true, false, false, None, None);
    assert_eq!(apply_state(&q, false, &mut t).volley, Some(Volley::Side(CannonSide::Bowside)));
    let e = InputState::new(false, false, true, false, None, None);
    assert_eq!(apply_state(&e, false, &mut t).volley, Some(Volley::Side(CannonSide::Portside)));
    let none = InputState::default();
    let fx = apply_state(&none, true, &mut t);
    assert_eq!(fx.volley, None);
    assert_eq!(fx.target, None);
    assert_eq!(t.balance, 100);
}

#[test]
fn entity_tags() {
    assert_eq!(EntityType::Ship.to_num(), 0);
    assert_eq!(EntityType::CannonBall.to_num(), 2);
    assert_eq!(EntityType::to_entity_type(1), EntityType::Object);
    assert_ne!(ObjectType::Reef, ObjectType::Island);
}

#[test]
fn mods_are_found_by_type() {
    let mods = [ShipModType::Repair, ShipModType::CannonAmmoUpgrade, ShipModType::CannonAmmoUpgrade];
    assert_eq!(find_mod(&mods, ShipModType::CannonAmmoUpgrade), Some(1));
    assert_eq!(find_mod(&mods, ShipModType::CannonRangeUpgrade), None);
}

#[test]
fn a_sinking_hit_runs_the_sinking() {
    let attr = ShipAttributes::caravel();
    let mut d = ShipData::new(ShipType::Caravel, ShipID::Computer("Bot".to_string()), &attr);
    assert_eq!(d.take_hit(0, true), DamageResult::Empty);
    assert_eq!(d.curr_health, 140);
    assert_eq!(d.take_hit(100, true), DamageResult::Hit(100));
    assert_eq!(d.curr_health, 40);
    // With a spawn point the sunk ship comes back at full health.
    assert_eq!(d.take_hit(40, true), DamageResult::Sink);
    assert_eq!(d.curr_health, 140);
    assert!(!d.destroy);
    // Without one it stays at the bottom and is marked for removal.
    assert_eq!(d.take_hit(500, false), DamageResult::Sink);
    assert_eq!(d.curr_health, 0);
    assert!(d.destroy);
}

#[test]
fn bought_repair_restores_health() {
    let attr = ShipAttributes::galleon();
    let mut d = ShipData::new(ShipType::Galleon, ShipID::Player(ID::new("Ann".to_string(), 1), true), &attr);
    d.take_damage(70);
    let mut mods: Vec<ShipModType> = vec![];
    let mut dmgs = vec![Attribute::setup(15)];
    apply_purchase(Purchase::Bought(ShipModType::Repair), &mut d, &mut mods, &mut dmgs);
    assert_eq!(d.curr_health, 160);
    assert!(mods.is_empty());
    assert_eq!(dmgs[0].total(), 15);
}

#[test]
fn bought_upgrades_are_applied_and_recorded() {
    let attr = ShipAttributes::caravel();
    let mut d = ShipData::new(ShipType::Caravel, ShipID::Computer("Bot".to_string()), &attr);
    let mut mods: Vec<ShipModType> = vec![];
    let mut dmgs = vec![Attribute::setup(15), Attribute::setup(15)];
    apply_purchase(Purchase::Bought(ShipModType::CannonAmmoUpgrade), &mut d, &mut mods, &mut dmgs);
    assert_eq!(mods, vec![ShipModType::CannonAmmoUpgrade]);
    assert_eq!((dmgs[0].total(), dmgs[1].total()), (20, 20));
    apply_purchase(Purchase::Bought(ShipModType::CannonReloadUpgrade), &mut d, &mut mods, &mut dmgs);
    assert_eq!(mods, vec![ShipModType::CannonAmmoUpgrade, ShipModType::CannonReloadUpgrade]);
    assert_eq!(dmgs[0].total(), 20);
    assert_eq!(d.curr_health, 140);
    // A refused purchase changes nothing.
    apply_purchase(Purchase::Refused(ShipModType::CannonRangeUpgrade), &mut d, &mut mods, &mut dmgs);
    apply_purchase(Purchase::NotRequested, &mut d, &mut mods, &mut dmgs);
    assert_eq!(mods.len(), 2);
    assert_eq!(dmgs[1].total(), 20);
}

#[test]
fn input_pays_for_and_carries_out_a_purchase() {
    let attr = ShipAttributes::schooner();
    let mut d = ShipData::new(ShipType::Schooner, ShipID::Computer("Bot".to_string()), &attr);
    let mut mods: Vec<ShipModType> = vec![];
    let mut dmgs = vec![Attribute::setup(10)];
    let mut treasury = Deposit::new(300);
    let state = InputState::new(false, false, true, true, Some(ShipModType::CannonAmmoUpgrade), None);
    let fx = apply_input(&state, true, &mut treasury, &mut d, &mut mods, &mut dmgs);
    assert_eq!(fx.volley, Some(Volley::Side(CannonSide::Portside)));
    assert_eq!(fx.purchase, Purchase::Bought(ShipModType::CannonAmmoUpgrade));
    let cost = get_ship_mod_cost(ShipModType::CannonAmmoUpgrade);
    assert_eq!(treasury.balance, 300 - cost);
    assert_eq!(mods, vec![ShipModType::CannonAmmoUpgrade]);
    assert_eq!(dmgs[0].total(), 15);
    // Out of a harbour the same input buys nothing.
    let fx = apply_input(&state, false, &mut treasury, &mut d, &mut mods, &mut dmgs);
    assert_eq!(fx.purchase, Purchase::NotRequested);
    assert_eq!(mods.len(), 1);
    assert_eq!(treasury.balance, 300 - cost);
}

#[test]
fn spawning_registers_the_treasury() {
    let mut economy = Economy::new();
    let s = spawn_ship(ShipType::Galleon, ShipID::Computer("Bot".to_string()), &mut economy);
    assert_eq!(s.attr, ShipAttributes::galleon());
    assert_eq!((s.data.curr_health, s.data.max_health), (160, 160));
    assert!(!s.data.destroy);
    assert_eq!((s.treasury.balance, s.treasury.networth), (100, 100));
    assert_eq!(s.cannons.len(), 10);
    assert_eq!(s.cannons[4], CannonSide::Bowside);
    assert_eq!(s.cannons[5], CannonSide::Portside);
    assert_eq!((economy.deposits, economy.escudos_in_circulation, economy.produced_escudos), (1, 100, 0));
    let t = spawn_ship(ShipType::Schooner, ShipID::Computer("Other".to_string()), &mut economy);
    assert_eq!(t.cannons.len(), 6);
    assert_eq!((economy.deposits, economy.escudos_in_circulation), (2, 200));
}

#[test]
fn collision_log_lines() {
    let a = ShipID::Player(ID::new("Ann".to_string(), 3), true);
    let b = ShipID::Computer("Bot".to_string());
    assert_eq!(collision_log_line(CollisionKind::ShipShip, &a, &b, 20), "ShipColl;Ann^3;collided with;Bot;20 dmg");
    assert_eq!(collision_log_line(CollisionKind::ShipCannonBall, &b, &a, 105), "CannonColl;Bot;shot by;Ann^3;105 dmg");
}

#[test]
fn entity_tags_round_trip() {
    for t in [EntityType::Ship, EntityType::Object, EntityType::CannonBall] {
        let n = t.to_num();
        assert!(n < 3);
        assert_eq!(EntityType::to_entity_type(n), t);
    }
    for n in 0..3u128 {
        assert_eq!(EntityType::to_entity_type(n).to_num(), n);
    }
}
