//! Game state reported by the OpenBW simulator, as plain values.
//!
//! The simulator itself is a C library driven by the application; this module
//! holds the records it reports and their conversion to per-frame game state.
use crate::text::push_str;
use vstd::prelude::*;

verus! {

/// A unit record as the simulator reports it (hit points, shields and energy in
/// 1/256 units).
#[derive(Clone, Copy, Debug)]
pub struct ObwUnit {
    pub unit_id: u16,
    pub player_id: u8,
    pub x: i32,
    pub y: i32,
    pub hp: i32,
    pub shields: i32,
    pub energy: i32,
    pub is_alive: u8,
}

/// A player record as the simulator reports it (supply in half-units).
#[derive(Clone, Copy, Debug)]
pub struct ObwPlayerInfo {
    pub player_id: u8,
    pub minerals: i32,
    pub gas: i32,
    pub supply_used: i32,
    pub supply_max: i32,
    pub race: u8,
}

/// A race as the simulator reports it.
#[derive(Clone, Copy, Debug, PartialEq, Eq, Structural)]
pub enum Race {
    Zerg,
    Terran,
    Protoss,
}

/// The race of a raw race code; unknown codes count as Terran.
pub open spec fn race_of_raw(r: u8) -> Race {
    if r == 0 {
        Race::Zerg
    } else if r == 2 {
        Race::Protoss
    } else {
        Race::Terran
    }
}

/// The display name of a race.
pub open spec fn race_name(r: Race) -> Seq<char> {
    match r {
        Race::Zerg => "Zerg"@,
        Race::Terran => "Terran"@,
        Race::Protoss => "Protoss"@,
    }
}

impl Race {
    /// The race of a raw race code; unknown codes count as Terran.
    pub fn from_raw(r: u8) -> (race: Race)
        ensures
            race == race_of_raw(r),
    {
        match r {
            0 => Race::Zerg,
            1 => Race::Terran,
            2 => Race::Protoss,
            _ => Race::Terran,
        }
    }

    /// The display name of the race.
    pub fn label(&self) -> (r: String)
        ensures
            r@ == race_name(*self),
    {
        let mut s = String::new();
        match self {
            Race::Zerg => push_str(&mut s, "Zerg"),
            Race::Terran => push_str(&mut s, "Terran"),
            Race::Protoss => push_str(&mut s, "Protoss"),
        }
        s
    }
}

/// A snapshot of a single unit at a point in time.
#[derive(Clone, Copy, Debug, PartialEq, Eq, Structural)]
pub struct Unit {
    pub unit_id: u16,
    pub player_id: u8,
    pub x: i32,
    pub y: i32,
    pub hp: i32,
    pub shields: i32,
    pub energy: i32,
    pub alive: bool,
}

/// `v / 256`, rounded toward zero as Rust's integer division is.
pub open spec fn div256(v: i32) -> i32 {
    if v >= 0 {
        (v / 256) as i32
    } else {
        (-((-v) / 256)) as i32
    }
}

fn div256_exec(v: i32) -> (r: i32)
    ensures
        r == div256(v),
{
    if v >= 0 {
        v / 256
    } else {
        let m: i64 = -(v as i64);
        -((m / 256) as i32)
    }
}

/// The unit snapshot of a raw record: points converted to whole units.
pub open spec fn unit_of(u: ObwUnit) -> Unit {
    Unit {
        unit_id: u.unit_id,
        player_id: u.player_id,
        x: u.x,
        y: u.y,
        hp: div256(u.hp),
        shields: div256(u.shields),
        energy: div256(u.energy),
        alive: u.is_alive != 0,
    }
}

impl Unit {
    /// Converts a raw unit record.
    pub fn from_raw(u: ObwUnit) -> (r: Unit)
        ensures
            r == unit_of(u),
    {
        Unit {
            unit_id: u.unit_id,
            player_id: u.player_id,
            x: u.x,
            y: u.y,
            hp: div256_exec(u.hp),
            shields: div256_exec(u.shields),
            energy: div256_exec(u.energy),
            alive: u.is_alive != 0,
        }
    }
}

/// Resource and supply snapshot for one player (supply in half-units).
#[derive(Clone, Copy, Debug, PartialEq, Eq, Structural)]
pub struct PlayerState {
    pub player_id: u8,
    pub race: Race,
    pub minerals: i32,
    pub gas: i32,
    /// Supply used, in half-units (4 workers = 8).
    pub supply_used_halves: i32,
    /// Supply capacity, in half-units.
    pub supply_max_halves: i32,
}

/// The player snapshot of a raw record.
pub open spec fn player_state_of(p: ObwPlayerInfo) -> PlayerState {
    PlayerState {
        player_id: p.player_id,
        race: race_of_raw(p.race),
        minerals: p.minerals,
        gas: p.gas,
        supply_used_halves: p.supply_used,
        supply_max_halves: p.supply_max,
    }
}

impl PlayerState {
    /// Converts a raw player record.
    pub fn from_raw(p: ObwPlayerInfo) -> (r: PlayerState)
        ensures
            r == player_state_of(p),
    {
        PlayerState {
            player_id: p.player_id,
            race: Race::from_raw(p.race),
            minerals: p.minerals,
            gas: p.gas,
            supply_used_halves: p.supply_used,
            supply_max_halves: p.supply_max,
        }
    }
}

/// Error type for simulation operations.
#[derive(Debug)]
pub struct SimError(pub String);

impl SimError {
    /// The message shown for the error.
    pub fn message(&self) -> (r: String)
        ensures
            r@ == "OpenBW error: "@ + self.0@,
    {
        let mut s = String::new();
        push_str(&mut s, "OpenBW error: ");
        push_str(&mut s, self.0.as_str());
        s
    }
}

/// Complete game state at a single frame.
#[derive(Clone, Debug)]
pub struct FrameState {
    pub frame: u32,
    pub players: Vec<PlayerState>,
    pub units: Vec<Unit>,
}

/// The abstract value of a [`FrameState`].
pub struct FrameStateView {
    pub frame: u32,
    pub players: Seq<PlayerState>,
    pub units: Seq<Unit>,
}

impl View for FrameState {
    type V = FrameStateView;

    open spec fn view(&self) -> FrameStateView {
        FrameStateView { frame: self.frame, players: self.players@, units: self.units@ }
    }
}

impl FrameState {
    /// A copy of the snapshot.
    pub fn duplicate(&self) -> (r: FrameState)
        ensures
            r@ == self@,
    {
        let mut players: Vec<PlayerState> = Vec::new();
        let mut i: usize = 0;
        while i < self.players.len()
            invariant
                i <= self.players@.len(),
                players@ == self.players@.take(i as int),
            decreases self.players.len() - i,
        {
            players.push(self.players[i]);
            i = i + 1;
            assert(players@ =~= self.players@.take(i as int));
        }
        let mut units: Vec<Unit> = Vec::new();
        let mut k: usize = 0;
        while k < self.units.len()
            invariant
                k <= self.units@.len(),
                units@ == self.units@.take(k as int),
            decreases self.units.len() - k,
        {
            units.push(self.units[k]);
            k = k + 1;
            assert(units@ =~= self.units@.take(k as int));
        }
        assert(players@ =~= self.players@);
        assert(units@ =~= self.units@);
        FrameState { frame: self.frame, players, units }
    }
}

} // verus!
