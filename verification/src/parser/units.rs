//! Brood War unit names.
use vstd::prelude::*;

verus! {

/// The name of unit type `id`, for the unit types whose cost is known.
pub open spec fn unit_label(id: u16) -> Option<Seq<char>> {
    if id == 0x00 {
        Some("Marine"@)
    } else if id == 0x01 {
        Some("Ghost"@)
    } else if id == 0x02 {
        Some("Vulture"@)
    } else if id == 0x03 {
        Some("Goliath"@)
    } else if id == 0x05 {
        Some("Siege Tank"@)
    } else if id == 0x07 {
        Some("SCV"@)
    } else if id == 0x08 {
        Some("Wraith"@)
    } else if id == 0x09 {
        Some("Science Vessel"@)
    } else if id == 0x0B {
        Some("Dropship"@)
    } else if id == 0x0C {
        Some("Battlecruiser"@)
    } else if id == 0x0E {
        Some("Nuclear Missile"@)
    } else if id == 0x20 {
        Some("Firebat"@)
    } else if id == 0x22 {
        Some("Medic"@)
    } else if id == 0x3A {
        Some("Valkyrie"@)
    } else if id == 0x25 {
        Some("Zergling"@)
    } else if id == 0x26 {
        Some("Hydralisk"@)
    } else if id == 0x27 {
        Some("Ultralisk"@)
    } else if id == 0x29 {
        Some("Drone"@)
    } else if id == 0x2A {
        Some("Overlord"@)
    } else if id == 0x2B {
        Some("Mutalisk"@)
    } else if id == 0x2C {
        Some("Guardian"@)
    } else if id == 0x2D {
        Some("Queen"@)
    } else if id == 0x2E {
        Some("Defiler"@)
    } else if id == 0x2F {
        Some("Scourge"@)
    } else if id == 0x32 {
        Some("Infested Terran"@)
    } else if id == 0x3C {
        Some("Corsair"@)
    } else if id == 0x3E {
        Some("Devourer"@)
    } else if id == 0x67 {
        Some("Lurker"@)
    } else if id == 0x61 {
        Some("Lurker Egg"@)
    } else if id == 0x3D {
        Some("Dark Templar"@)
    } else if id == 0x3F {
        Some("Dark Archon"@)
    } else if id == 0x40 {
        Some("Probe"@)
    } else if id == 0x41 {
        Some("Zealot"@)
    } else if id == 0x42 {
        Some("Dragoon"@)
    } else if id == 0x43 {
        Some("High Templar"@)
    } else if id == 0x44 {
        Some("Archon"@)
    } else if id == 0x45 {
        Some("Shuttle"@)
    } else if id == 0x46 {
        Some("Scout"@)
    } else if id == 0x47 {
        Some("Arbiter"@)
    } else if id == 0x48 {
        Some("Carrier"@)
    } else if id == 0x49 {
        Some("Interceptor"@)
    } else if id == 0x53 {
        Some("Reaver"@)
    } else if id == 0x54 {
        Some("Observer"@)
    } else if id == 0x55 {
        Some("Scarab"@)
    } else if id == 0x6A {
        Some("Command Center"@)
    } else if id == 0x6B {
        Some("ComSat"@)
    } else if id == 0x6C {
        Some("Nuclear Silo"@)
    } else if id == 0x6D {
        Some("Supply Depot"@)
    } else if id == 0x6E {
        Some("Refinery"@)
    } else if id == 0x6F {
        Some("Barracks"@)
    } else if id == 0x70 {
        Some("Academy"@)
    } else if id == 0x71 {
        Some("Factory"@)
    } else if id == 0x72 {
        Some("Starport"@)
    } else if id == 0x73 {
        Some("Control Tower"@)
    } else if id == 0x74 {
        Some("Science Facility"@)
    } else if id == 0x75 {
        Some("Covert Ops"@)
    } else if id == 0x76 {
        Some("Physics Lab"@)
    } else if id == 0x78 {
        Some("Machine Shop"@)
    } else if id == 0x7A {
        Some("Engineering Bay"@)
    } else if id == 0x7B {
        Some("Armory"@)
    } else if id == 0x7C {
        Some("Missile Turret"@)
    } else if id == 0x7D {
        Some("Bunker"@)
    } else if id == 0x82 {
        Some("Infested CC"@)
    } else if id == 0x83 {
        Some("Hatchery"@)
    } else if id == 0x84 {
        Some("Lair"@)
    } else if id == 0x85 {
        Some("Hive"@)
    } else if id == 0x86 {
        Some("Nydus Canal"@)
    } else if id == 0x87 {
        Some("Hydralisk Den"@)
    } else if id == 0x88 {
        Some("Defiler Mound"@)
    } else if id == 0x89 {
        Some("Greater Spire"@)
    } else if id == 0x8A {
        Some("Queens Nest"@)
    } else if id == 0x8B {
        Some("Evolution Chamber"@)
    } else if id == 0x8C {
        Some("Ultralisk Cavern"@)
    } else if id == 0x8D {
        Some("Spire"@)
    } else if id == 0x8E {
        Some("Spawning Pool"@)
    } else if id == 0x8F {
        Some("Creep Colony"@)
    } else if id == 0x90 {
        Some("Spore Colony"@)
    } else if id == 0x92 {
        Some("Sunken Colony"@)
    } else if id == 0x95 {
        Some("Extractor"@)
    } else if id == 0x9A {
        Some("Nexus"@)
    } else if id == 0x9B {
        Some("Robotics Facility"@)
    } else if id == 0x9C {
        Some("Pylon"@)
    } else if id == 0x9D {
        Some("Assimilator"@)
    } else if id == 0x9F {
        Some("Observatory"@)
    } else if id == 0xA0 {
        Some("Gateway"@)
    } else if id == 0xA2 {
        Some("Photon Cannon"@)
    } else if id == 0xA3 {
        Some("Citadel of Adun"@)
    } else if id == 0xA4 {
        Some("Cybernetics Core"@)
    } else if id == 0xA5 {
        Some("Templar Archives"@)
    } else if id == 0xA6 {
        Some("Forge"@)
    } else if id == 0xA7 {
        Some("Stargate"@)
    } else if id == 0xA9 {
        Some("Fleet Beacon"@)
    } else if id == 0xAA {
        Some("Arbiter Tribunal"@)
    } else if id == 0xAB {
        Some("Robotics Support Bay"@)
    } else if id == 0xAC {
        Some("Shield Battery"@)
    } else {
        None
    }
}

/// The name shown for unit type `id`: its name, or `Unknown`.
pub open spec fn unit_name_of(id: u16) -> Seq<char> {
    match unit_label(id) {
        Some(n) => n,
        None => "Unknown"@,
    }
}

fn label_of(id: u16) -> (r: Option<&'static str>)
    ensures
        match r {
            Some(s) => unit_label(id) == Some(s@),
            None => unit_label(id) == None::<Seq<char>>,
        },
{
    match id {
        0x00 => Some("Marine"),
        0x01 => Some("Ghost"),
        0x02 => Some("Vulture"),
        0x03 => Some("Goliath"),
        0x05 => Some("Siege Tank"),
        0x07 => Some("SCV"),
        0x08 => Some("Wraith"),
        0x09 => Some("Science Vessel"),
        0x0B => Some("Dropship"),
        0x0C => Some("Battlecruiser"),
        0x0E => Some("Nuclear Missile"),
        0x20 => Some("Firebat"),
        0x22 => Some("Medic"),
        0x3A => Some("Valkyrie"),
        0x25 => Some("Zergling"),
        0x26 => Some("Hydralisk"),
        0x27 => Some("Ultralisk"),
        0x29 => Some("Drone"),
        0x2A => Some("Overlord"),
        0x2B => Some("Mutalisk"),
        0x2C => Some("Guardian"),
        0x2D => Some("Queen"),
        0x2E => Some("Defiler"),
        0x2F => Some("Scourge"),
        0x32 => Some("Infested Terran"),
        0x3C => Some("Corsair"),
        0x3E => Some("Devourer"),
        0x67 => Some("Lurker"),
        0x61 => Some("Lurker Egg"),
        0x3D => Some("Dark Templar"),
        0x3F => Some("Dark Archon"),
        0x40 => Some("Probe"),
        0x41 => Some("Zealot"),
        0x42 => Some("Dragoon"),
        0x43 => Some("High Templar"),
        0x44 => Some("Archon"),
        0x45 => Some("Shuttle"),
        0x46 => Some("Scout"),
        0x47 => Some("Arbiter"),
        0x48 => Some("Carrier"),
        0x49 => Some("Interceptor"),
        0x53 => Some("Reaver"),
        0x54 => Some("Observer"),
        0x55 => Some("Scarab"),
        0x6A => Some("Command Center"),
        0x6B => Some("ComSat"),
        0x6C => Some("Nuclear Silo"),
        0x6D => Some("Supply Depot"),
        0x6E => Some("Refinery"),
        0x6F => Some("Barracks"),
        0x70 => Some("Academy"),
        0x71 => Some("Factory"),
        0x72 => Some("Starport"),
        0x73 => Some("Control Tower"),
        0x74 => Some("Science Facility"),
        0x75 => Some("Covert Ops"),
        0x76 => Some("Physics Lab"),
        0x78 => Some("Machine Shop"),
        0x7A => Some("Engineering Bay"),
        0x7B => Some("Armory"),
        0x7C => Some("Missile Turret"),
        0x7D => Some("Bunker"),
        0x82 => Some("Infested CC"),
        0x83 => Some("Hatchery"),
        0x84 => Some("Lair"),
        0x85 => Some("Hive"),
        0x86 => Some("Nydus Canal"),
        0x87 => Some("Hydralisk Den"),
        0x88 => Some("Defiler Mound"),
        0x89 => Some("Greater Spire"),
        0x8A => Some("Queens Nest"),
        0x8B => Some("Evolution Chamber"),
        0x8C => Some("Ultralisk Cavern"),
        0x8D => Some("Spire"),
        0x8E => Some("Spawning Pool"),
        0x8F => Some("Creep Colony"),
        0x90 => Some("Spore Colony"),
        0x92 => Some("Sunken Colony"),
        0x95 => Some("Extractor"),
        0x9A => Some("Nexus"),
        0x9B => Some("Robotics Facility"),
        0x9C => Some("Pylon"),
        0x9D => Some("Assimilator"),
        0x9F => Some("Observatory"),
        0xA0 => Some("Gateway"),
        0xA2 => Some("Photon Cannon"),
        0xA3 => Some("Citadel of Adun"),
        0xA4 => Some("Cybernetics Core"),
        0xA5 => Some("Templar Archives"),
        0xA6 => Some("Forge"),
        0xA7 => Some("Stargate"),
        0xA9 => Some("Fleet Beacon"),
        0xAA => Some("Arbiter Tribunal"),
        0xAB => Some("Robotics Support Bay"),
        0xAC => Some("Shield Battery"),
        _ => None,
    }
}

/// Whether unit type `id` has a known name.
pub fn is_known_unit(id: u16) -> (r: bool)
    ensures
        r == unit_label(id) is Some,
{
    label_of(id).is_some()
}

/// The name of unit type `id`, or `Unknown`.
pub fn unit_name(id: u16) -> (r: &'static str)
    ensures
        r@ == unit_name_of(id),
{
    match label_of(id) {
        Some(n) => n,
        None => "Unknown",
    }
}

/// Whether unit type `id` is a building (Command Center to Shield Battery).
pub open spec fn is_building_unit(id: u16) -> bool {
    0x6A <= id <= 0xAC
}

/// Whether unit type `id` is a building.
pub fn is_building(id: u16) -> (r: bool)
    ensures
        r == is_building_unit(id),
{
    0x6A <= id && id <= 0xAC
}

} // verus!
