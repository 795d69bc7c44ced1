//! Brood War unit, upgrade and research costs.
//!
//! Supply is counted in half-units, as the game does internally: a Zergling
//! takes one half-unit, a Marine two.  Supply providers have a negative supply
//! (they add capacity).
use super::Race;
use vstd::prelude::*;

verus! {

/// The cost of a unit or building: minerals, gas and supply in half-units
/// (negative for supply providers).
#[derive(Clone, Copy, Debug, PartialEq, Eq, Structural)]
pub struct UnitCost {
    pub minerals: u32,
    pub gas: u32,
    /// Supply consumed (positive) or provided (negative), in half-units.
    pub supply_halves: i32,
}

/// The cost of unit type `id`, or `None` for unit types without a known cost.
pub open spec fn unit_cost_of(id: u16) -> Option<UnitCost> {
    if id == 0x00 {
        Some(UnitCost { minerals: 50, gas: 0, supply_halves: 2i32 })
    } else if id == 0x01 {
        Some(UnitCost { minerals: 25, gas: 75, supply_halves: 2i32 })
    } else if id == 0x02 {
        Some(UnitCost { minerals: 75, gas: 0, supply_halves: 4i32 })
    } else if id == 0x03 {
        Some(UnitCost { minerals: 100, gas: 50, supply_halves: 4i32 })
    } else if id == 0x05 {
        Some(UnitCost { minerals: 150, gas: 100, supply_halves: 4i32 })
    } else if id == 0x07 {
        Some(UnitCost { minerals: 50, gas: 0, supply_halves: 2i32 })
    } else if id == 0x08 {
        Some(UnitCost { minerals: 150, gas: 100, supply_halves: 4i32 })
    } else if id == 0x09 {
        Some(UnitCost { minerals: 100, gas: 225, supply_halves: 4i32 })
    } else if id == 0x0B {
        Some(UnitCost { minerals: 100, gas: 100, supply_halves: 4i32 })
    } else if id == 0x0C {
        Some(UnitCost { minerals: 400, gas: 300, supply_halves: 12i32 })
    } else if id == 0x0E {
        Some(UnitCost { minerals: 200, gas: 200, supply_halves: 16i32 })
    } else if id == 0x20 {
        Some(UnitCost { minerals: 50, gas: 25, supply_halves: 2i32 })
    } else if id == 0x22 {
        Some(UnitCost { minerals: 50, gas: 25, supply_halves: 2i32 })
    } else if id == 0x3A {
        Some(UnitCost { minerals: 250, gas: 125, supply_halves: 6i32 })
    } else if id == 0x25 {
        Some(UnitCost { minerals: 25, gas: 0, supply_halves: 1i32 })
    } else if id == 0x26 {
        Some(UnitCost { minerals: 75, gas: 25, supply_halves: 2i32 })
    } else if id == 0x27 {
        Some(UnitCost { minerals: 200, gas: 200, supply_halves: 8i32 })
    } else if id == 0x29 {
        Some(UnitCost { minerals: 50, gas: 0, supply_halves: 2i32 })
    } else if id == 0x2A {
        Some(UnitCost { minerals: 100, gas: 0, supply_halves: -16i32 })
    } else if id == 0x2B {
        Some(UnitCost { minerals: 100, gas: 100, supply_halves: 4i32 })
    } else if id == 0x2C {
        Some(UnitCost { minerals: 0, gas: 0, supply_halves: 0i32 })
    } else if id == 0x2D {
        Some(UnitCost { minerals: 100, gas: 100, supply_halves: 4i32 })
    } else if id == 0x2E {
        Some(UnitCost { minerals: 50, gas: 150, supply_halves: 4i32 })
    } else if id == 0x2F {
        Some(UnitCost { minerals: 12, gas: 38, supply_halves: 1i32 })
    } else if id == 0x32 {
        Some(UnitCost { minerals: 100, gas: 50, supply_halves: 2i32 })
    } else if id == 0x3C {
        Some(UnitCost { minerals: 150, gas: 100, supply_halves: 4i32 })
    } else if id == 0x3E {
        Some(UnitCost { minerals: 0, gas: 0, supply_halves: 0i32 })
    } else if id == 0x67 {
        Some(UnitCost { minerals: 0, gas: 0, supply_halves: 0i32 })
    } else if id == 0x61 {
        Some(UnitCost { minerals: 50, gas: 100, supply_halves: 0i32 })
    } else if id == 0x3D {
        Some(UnitCost { minerals: 125, gas: 100, supply_halves: 4i32 })
    } else if id == 0x3F {
        Some(UnitCost { minerals: 0, gas: 0, supply_halves: 0i32 })
    } else if id == 0x40 {
        Some(UnitCost { minerals: 50, gas: 0, supply_halves: 2i32 })
    } else if id == 0x41 {
        Some(UnitCost { minerals: 100, gas: 0, supply_halves: 4i32 })
    } else if id == 0x42 {
        Some(UnitCost { minerals: 125, gas: 50, supply_halves: 4i32 })
    } else if id == 0x43 {
        Some(UnitCost { minerals: 50, gas: 150, supply_halves: 4i32 })
    } else if id == 0x44 {
        Some(UnitCost { minerals: 0, gas: 0, supply_halves: 0i32 })
    } else if id == 0x45 {
        Some(UnitCost { minerals: 200, gas: 0, supply_halves: 4i32 })
    } else if id == 0x46 {
        Some(UnitCost { minerals: 275, gas: 125, supply_halves: 6i32 })
    } else if id == 0x47 {
        Some(UnitCost { minerals: 100, gas: 350, supply_halves: 8i32 })
    } else if id == 0x48 {
        Some(UnitCost { minerals: 350, gas: 250, supply_halves: 12i32 })
    } else if id == 0x49 {
        Some(UnitCost { minerals: 25, gas: 0, supply_halves: 0i32 })
    } else if id == 0x53 {
        Some(UnitCost { minerals: 200, gas: 100, supply_halves: 8i32 })
    } else if id == 0x54 {
        Some(UnitCost { minerals: 25, gas: 75, supply_halves: 2i32 })
    } else if id == 0x55 {
        Some(UnitCost { minerals: 15, gas: 0, supply_halves: 0i32 })
    } else if id == 0x6A {
        Some(UnitCost { minerals: 400, gas: 0, supply_halves: -20i32 })
    } else if id == 0x6B {
        Some(UnitCost { minerals: 50, gas: 50, supply_halves: 0i32 })
    } else if id == 0x6C {
        Some(UnitCost { minerals: 100, gas: 100, supply_halves: 0i32 })
    } else if id == 0x6D {
        Some(UnitCost { minerals: 100, gas: 0, supply_halves: -16i32 })
    } else if id == 0x6E {
        Some(UnitCost { minerals: 75, gas: 0, supply_halves: 0i32 })
    } else if id == 0x6F {
        Some(UnitCost { minerals: 150, gas: 0, supply_halves: 0i32 })
    } else if id == 0x70 {
        Some(UnitCost { minerals: 150, gas: 0, supply_halves: 0i32 })
    } else if id == 0x71 {
        Some(UnitCost { minerals: 200, gas: 100, supply_halves: 0i32 })
    } else if id == 0x72 {
        Some(UnitCost { minerals: 150, gas: 100, supply_halves: 0i32 })
    } else if id == 0x73 {
        Some(UnitCost { minerals: 50, gas: 50, supply_halves: 0i32 })
    } else if id == 0x74 {
        Some(UnitCost { minerals: 100, gas: 150, supply_halves: 0i32 })
    } else if id == 0x75 {
        Some(UnitCost { minerals: 50, gas: 50, supply_halves: 0i32 })
    } else if id == 0x76 {
        Some(UnitCost { minerals: 50, gas: 50, supply_halves: 0i32 })
    } else if id == 0x78 {
        Some(UnitCost { minerals: 50, gas: 50, supply_halves: 0i32 })
    } else if id == 0x7A {
        Some(UnitCost { minerals: 125, gas: 0, supply_halves: 0i32 })
    } else if id == 0x7B {
        Some(UnitCost { minerals: 100, gas: 50, supply_halves: 0i32 })
    } else if id == 0x7C {
        Some(UnitCost { minerals: 75, gas: 0, supply_halves: 0i32 })
    } else if id == 0x7D {
        Some(UnitCost { minerals: 100, gas: 0, supply_halves: 0i32 })
    } else if id == 0x82 {
        Some(UnitCost { minerals: 0, gas: 0, supply_halves: 0i32 })
    } else if id == 0x83 {
        Some(UnitCost { minerals: 300, gas: 0, supply_halves: -2i32 })
    } else if id == 0x84 {
        Some(UnitCost { minerals: 150, gas: 100, supply_halves: 0i32 })
    } else if id == 0x85 {
        Some(UnitCost { minerals: 200, gas: 150, supply_halves: 0i32 })
    } else if id == 0x86 {
        Some(UnitCost { minerals: 160, gas: 0, supply_halves: 0i32 })
    } else if id == 0x87 {
        Some(UnitCost { minerals: 100, gas: 50, supply_halves: 0i32 })
    } else if id == 0x88 {
        Some(UnitCost { minerals: 100, gas: 100, supply_halves: 0i32 })
    } else if id == 0x89 {
        Some(UnitCost { minerals: 100, gas: 150, supply_halves: 0i32 })
    } else if id == 0x8A {
        Some(UnitCost { minerals: 150, gas: 100, supply_halves: 0i32 })
    } else if id == 0x8B {
        Some(UnitCost { minerals: 75, gas: 0, supply_halves: 0i32 })
    } else if id == 0x8C {
        Some(UnitCost { minerals: 150, gas: 200, supply_halves: 0i32 })
    } else if id == 0x8D {
        Some(UnitCost { minerals: 200, gas: 150, supply_halves: 0i32 })
    } else if id == 0x8E {
        Some(UnitCost { minerals: 200, gas: 0, supply_halves: 0i32 })
    } else if id == 0x8F {
        Some(UnitCost { minerals: 75, gas: 0, supply_halves: 0i32 })
    } else if id == 0x90 {
        Some(UnitCost { minerals: 50, gas: 0, supply_halves: 0i32 })
    } else if id == 0x92 {
        Some(UnitCost { minerals: 50, gas: 0, supply_halves: 0i32 })
    } else if id == 0x95 {
        Some(UnitCost { minerals: 25, gas: 0, supply_halves: 0i32 })
    } else if id == 0x9A {
        Some(UnitCost { minerals: 400, gas: 0, supply_halves: -18i32 })
    } else if id == 0x9B {
        Some(UnitCost { minerals: 200, gas: 200, supply_halves: 0i32 })
    } else if id == 0x9C {
        Some(UnitCost { minerals: 100, gas: 0, supply_halves: -16i32 })
    } else if id == 0x9D {
        Some(UnitCost { minerals: 100, gas: 0, supply_halves: 0i32 })
    } else if id == 0x9F {
        Some(UnitCost { minerals: 50, gas: 100, supply_halves: 0i32 })
    } else if id == 0xA0 {
        Some(UnitCost { minerals: 150, gas: 0, supply_halves: 0i32 })
    } else if id == 0xA2 {
        Some(UnitCost { minerals: 150, gas: 0, supply_halves: 0i32 })
    } else if id == 0xA3 {
        Some(UnitCost { minerals: 150, gas: 100, supply_halves: 0i32 })
    } else if id == 0xA4 {
        Some(UnitCost { minerals: 200, gas: 0, supply_halves: 0i32 })
    } else if id == 0xA5 {
        Some(UnitCost { minerals: 150, gas: 200, supply_halves: 0i32 })
    } else if id == 0xA6 {
        Some(UnitCost { minerals: 150, gas: 0, supply_halves: 0i32 })
    } else if id == 0xA7 {
        Some(UnitCost { minerals: 150, gas: 150, supply_halves: 0i32 })
    } else if id == 0xA9 {
        Some(UnitCost { minerals: 300, gas: 200, supply_halves: 0i32 })
    } else if id == 0xAA {
        Some(UnitCost { minerals: 200, gas: 150, supply_halves: 0i32 })
    } else if id == 0xAB {
        Some(UnitCost { minerals: 150, gas: 100, supply_halves: 0i32 })
    } else if id == 0xAC {
        Some(UnitCost { minerals: 100, gas: 0, supply_halves: 0i32 })
    } else {
        None
    }
}

/// The cost of unit type `id`: minerals, gas and supply (negative for supply
/// providers); `None` for unknown units.
pub fn unit_cost(id: u16) -> (r: Option<UnitCost>)
    ensures
        r == unit_cost_of(id),
{
    let (m, g, s): (u32, u32, i32) = match id {
        0x00 => (50, 0, 2),
        0x01 => (25, 75, 2),
        0x02 => (75, 0, 4),
        0x03 => (100, 50, 4),
        0x05 => (150, 100, 4),
        0x07 => (50, 0, 2),
        0x08 => (150, 100, 4),
        0x09 => (100, 225, 4),
        0x0B => (100, 100, 4),
        0x0C => (400, 300, 12),
        0x0E => (200, 200, 16),
        0x20 => (50, 25, 2),
        0x22 => (50, 25, 2),
        0x3A => (250, 125, 6),
        0x25 => (25, 0, 1),
        0x26 => (75, 25, 2),
        0x27 => (200, 200, 8),
        0x29 => (50, 0, 2),
        0x2A => (100, 0, -16),
        0x2B => (100, 100, 4),
        0x2C => (0, 0, 0),
        0x2D => (100, 100, 4),
        0x2E => (50, 150, 4),
        0x2F => (12, 38, 1),
        0x32 => (100, 50, 2),
        0x3C => (150, 100, 4),
        0x3E => (0, 0, 0),
        0x67 => (0, 0, 0),
        0x61 => (50, 100, 0),
        0x3D => (125, 100, 4),
        0x3F => (0, 0, 0),
        0x40 => (50, 0, 2),
        0x41 => (100, 0, 4),
        0x42 => (125, 50, 4),
        0x43 => (50, 150, 4),
        0x44 => (0, 0, 0),
        0x45 => (200, 0, 4),
        0x46 => (275, 125, 6),
        0x47 => (100, 350, 8),
        0x48 => (350, 250, 12),
        0x49 => (25, 0, 0),
        0x53 => (200, 100, 8),
        0x54 => (25, 75, 2),
        0x55 => (15, 0, 0),
        0x6A => (400, 0, -20),
        0x6B => (50, 50, 0),
        0x6C => (100, 100, 0),
        0x6D => (100, 0, -16),
        0x6E => (75, 0, 0),
        0x6F => (150, 0, 0),
        0x70 => (150, 0, 0),
        0x71 => (200, 100, 0),
        0x72 => (150, 100, 0),
        0x73 => (50, 50, 0),
        0x74 => (100, 150, 0),
        0x75 => (50, 50, 0),
        0x76 => (50, 50, 0),
        0x78 => (50, 50, 0),
        0x7A => (125, 0, 0),
        0x7B => (100, 50, 0),
        0x7C => (75, 0, 0),
        0x7D => (100, 0, 0),
        0x82 => (0, 0, 0),
        0x83 => (300, 0, -2),
        0x84 => (150, 100, 0),
        0x85 => (200, 150, 0),
        0x86 => (160, 0, 0),
        0x87 => (100, 50, 0),
        0x88 => (100, 100, 0),
        0x89 => (100, 150, 0),
        0x8A => (150, 100, 0),
        0x8B => (75, 0, 0),
        0x8C => (150, 200, 0),
        0x8D => (200, 150, 0),
        0x8E => (200, 0, 0),
        0x8F => (75, 0, 0),
        0x90 => (50, 0, 0),
        0x92 => (50, 0, 0),
        0x95 => (25, 0, 0),
        0x9A => (400, 0, -18),
        0x9B => (200, 200, 0),
        0x9C => (100, 0, -16),
        0x9D => (100, 0, 0),
        0x9F => (50, 100, 0),
        0xA0 => (150, 0, 0),
        0xA2 => (150, 0, 0),
        0xA3 => (150, 100, 0),
        0xA4 => (200, 0, 0),
        0xA5 => (150, 200, 0),
        0xA6 => (150, 0, 0),
        0xA7 => (150, 150, 0),
        0xA9 => (300, 200, 0),
        0xAA => (200, 150, 0),
        0xAB => (150, 100, 0),
        0xAC => (100, 0, 0),
        _ => {
            return None;
        },
    };
    Some(UnitCost { minerals: m, gas: g, supply_halves: s })
}

/// Whether unit type `id` provides supply: Overlord, Command Center, Supply
/// Depot, Hatchery, Nexus or Pylon.
pub open spec fn is_supply_provider(id: u16) -> bool {
    id == 0x2A || id == 0x6A || id == 0x6D || id == 0x83 || id == 0x9A || id == 0x9C
}

/// Supply providers, and only they, have a negative supply cost.
pub proof fn supply_providers_have_negative_supply(id: u16)
    ensures
        (unit_cost_of(id) matches Some(c) && c.supply_halves < 0) <==> is_supply_provider(id),
{
}

/// Whether unit type `id` is a worker (SCV, Drone or Probe).
pub open spec fn is_worker_unit(id: u16) -> bool {
    id == 0x07 || id == 0x29 || id == 0x40
}

/// Whether unit type `id` is a worker (SCV, Drone or Probe).
pub fn is_worker(id: u16) -> (r: bool)
    ensures
        r == is_worker_unit(id),
{
    id == 0x07 || id == 0x29 || id == 0x40
}

/// The starting supply of a race, (used, max) in half-units: four workers, and
/// the capacity of the starting base (and, for Zerg, the Overlord).
pub open spec fn starting_supply_of(race: Race) -> (i32, i32) {
    match race {
        Race::Terran => (8, 20),
        Race::Zerg => (8, 18),
        Race::Protoss => (8, 18),
        Race::Unknown(_) => (8, 20),
    }
}

/// The starting supply of a race, (used, max) in half-units.
/// Terran: 4 SCVs + Command Center = 4 used / 10 max;
/// Zerg: 4 Drones + Overlord + Hatchery = 4 used / 9 max;
/// Protoss: 4 Probes + Nexus = 4 used / 9 max.
pub fn starting_supply(race: &Race) -> (r: (i32, i32))
    ensures
        r == starting_supply_of(*race),
{
    match race {
        Race::Terran => (8, 20),
        Race::Zerg => (8, 18),
        Race::Protoss => (8, 18),
        _ => (8, 20),
    }
}

/// The level-1 cost of upgrade `upgrade_id`, (minerals, gas); unknown upgrades
/// are estimated at (150, 150).
pub open spec fn upgrade_cost_of(upgrade_id: u8) -> (u32, u32) {
    if upgrade_id == 0 {
        (100, 100)
    } else if upgrade_id == 1 {
        (100, 100)
    } else if upgrade_id == 2 {
        (150, 150)
    } else if upgrade_id == 3 {
        (150, 150)
    } else if upgrade_id == 4 {
        (150, 150)
    } else if upgrade_id == 5 {
        (100, 100)
    } else if upgrade_id == 6 {
        (150, 150)
    } else if upgrade_id == 7 {
        (100, 100)
    } else if upgrade_id == 8 {
        (100, 100)
    } else if upgrade_id == 9 {
        (100, 100)
    } else if upgrade_id == 10 {
        (100, 100)
    } else if upgrade_id == 11 {
        (100, 100)
    } else if upgrade_id == 12 {
        (100, 100)
    } else if upgrade_id == 13 {
        (100, 100)
    } else if upgrade_id == 14 {
        (100, 100)
    } else if upgrade_id == 15 {
        (200, 200)
    } else {
        (150, 150)
    }
}

/// The level-1 cost of upgrade `upgrade_id`, (minerals, gas); unknown upgrades
/// are estimated at (150, 150).
pub fn upgrade_cost(upgrade_id: u8) -> (r: (u32, u32))
    ensures
        r == upgrade_cost_of(upgrade_id),
{
    match upgrade_id {
        0 => (100, 100),  // Terran Infantry Armor
        1 => (100, 100),  // Terran Vehicle Plating
        2 => (150, 150),  // Terran Ship Plating
        3 => (150, 150),  // Zerg Carapace
        4 => (150, 150),  // Zerg Flyer Carapace
        5 => (100, 100),  // Protoss Ground Armor
        6 => (150, 150),  // Protoss Air Armor
        7 => (100, 100),  // Terran Infantry Weapons
        8 => (100, 100),  // Terran Vehicle Weapons
        9 => (100, 100),  // Terran Ship Weapons
        10 => (100, 100),  // Zerg Melee Attacks
        11 => (100, 100),  // Zerg Missile Attacks
        12 => (100, 100),  // Zerg Flyer Attacks
        13 => (100, 100),  // Protoss Ground Weapons
        14 => (100, 100),  // Protoss Air Weapons
        15 => (200, 200),  // Protoss Plasma Shields
        _ => (150, 150),
    }
}

/// The research cost of tech `tech_id`, (minerals, gas); unknown techs are
/// estimated at (150, 150).
pub open spec fn tech_cost_of(tech_id: u8) -> (u32, u32) {
    if tech_id == 0 {
        (200, 200)
    } else if tech_id == 1 {
        (100, 100)
    } else if tech_id == 2 {
        (200, 200)
    } else if tech_id == 3 {
        (100, 100)
    } else if tech_id == 5 {
        (150, 150)
    } else if tech_id == 7 {
        (200, 200)
    } else if tech_id == 9 {
        (100, 100)
    } else if tech_id == 10 {
        (100, 100)
    } else if tech_id == 11 {
        (25, 75)
    } else if tech_id == 13 {
        (100, 100)
    } else if tech_id == 15 {
        (200, 200)
    } else if tech_id == 17 {
        (100, 100)
    } else if tech_id == 19 {
        (100, 100)
    } else if tech_id == 20 {
        (150, 150)
    } else if tech_id == 22 {
        (150, 100)
    } else if tech_id == 24 {
        (150, 150)
    } else if tech_id == 25 {
        (200, 200)
    } else if tech_id == 27 {
        (100, 100)
    } else if tech_id == 30 {
        (200, 200)
    } else if tech_id == 32 {
        (100, 100)
    } else if tech_id == 34 {
        (200, 200)
    } else if tech_id == 36 {
        (100, 100)
    } else if tech_id == 38 {
        (150, 150)
    } else if tech_id == 39 {
        (200, 200)
    } else if tech_id == 40 {
        (100, 100)
    } else {
        (150, 150)
    }
}

/// The research cost of tech `tech_id`, (minerals, gas); unknown techs are
/// estimated at (150, 150).
pub fn tech_cost(tech_id: u8) -> (r: (u32, u32))
    ensures
        r == tech_cost_of(tech_id),
{
    match tech_id {
        0 => (200, 200),  // Stim Packs
        1 => (100, 100),  // Lockdown
        2 => (200, 200),  // EMP Shockwave
        3 => (100, 100),  // Spider Mines
        5 => (150, 150),  // Siege Mode
        7 => (200, 200),  // Irradiate
        9 => (100, 100),  // Yamato Gun
        10 => (100, 100),  // Cloaking Field
        11 => (25, 75),  // Personnel Cloaking
        13 => (100, 100),  // Burrowing
        15 => (200, 200),  // Spawn Broodlings
        17 => (100, 100),  // Plague
        19 => (100, 100),  // Consume
        20 => (150, 150),  // Ensnare
        22 => (150, 100),  // Psionic Storm
        24 => (150, 150),  // Hallucination
        25 => (200, 200),  // Recall
        27 => (100, 100),  // Stasis Field
        30 => (200, 200),  // Restoration
        32 => (100, 100),  // Disruption Web
        34 => (200, 200),  // Mind Control
        36 => (100, 100),  // Feedback
        38 => (150, 150),  // Optical Flare
        39 => (200, 200),  // Maelstrom
        40 => (100, 100),  // Lurker Aspect
        _ => (150, 150),
    }
}

} // verus!
