use pathtobonjwa::openbw::{
    FrameState, ObwPlayerInfo, ObwUnit, PlayerState, Race, SimError, Unit,
};
use pathtobonjwa::settings::Settings;
use pathtobonjwa::simulation::{
    extract_replay_sections, finish_simulation, wants_snapshot, SimConfig, SimulationResult,
};

fn unit(unit_id: u16, player_id: u8, alive: bool) -> Unit {
    Unit { unit_id, player_id, x: 0, y: 0, hp: 40, shields: 0, energy: 0, alive }
}

fn state(player_id: u8, used: i32) -> PlayerState {
    PlayerState {
        player_id,
        race: Race::Protoss,
        minerals: 50 + used,
        gas: used,
        supply_used_halves: used,
        supply_max_halves: 18,
    }
}

fn frame(f: u32, players: Vec<PlayerState>, units: Vec<Unit>) -> FrameState {
    FrameState { frame: f, players, units }
}

fn result() -> SimulationResult {
    finish_simulation(
        vec![
            frame(0, vec![state(0, 8), state(1, 8)], vec![unit(0x40, 0, true), unit(0x40, 0, true)]),
            frame(240, vec![state(1, 10)], vec![unit(0x41, 0, true), unit(0x40, 0, true), unit(0x41, 0, true), unit(0x42, 0, false), unit(0x43, 1, true)]),
        ],
        frame(300, vec![state(0, 20)], vec![unit(0x41, 0, true), unit(0x40, 0, true)]),
        300,
    )
}

#[test]
fn final_frame_is_appended() {
    let r = result();
    assert_eq!(r.total_frames, 300);
    assert_eq!(r.snapshots.len(), 3);
    assert_eq!(r.snapshots[2].frame, 300);
    assert_eq!(r.final_state.frame, 300);
    let again = finish_simulation(vec![frame(300, vec![], vec![])], frame(300, vec![], vec![]), 300);
    assert_eq!(again.snapshots.len(), 1);
}

#[test]
fn curves() {
    let r = result();
    assert_eq!(r.supply_curve(0), vec![(0, 8, 18), (300, 20, 18)]);
    assert_eq!(r.supply_curve(1), vec![(0, 8, 18), (240, 10, 18)]);
    assert_eq!(r.resource_curve(1), vec![(0, 58, 8), (240, 60, 10)]);
    assert_eq!(r.unit_count_curve(0), vec![(0, 2), (240, 3), (300, 2)]);
    assert!(r.supply_curve(5).is_empty());
}

#[test]
fn army_at_nearest_sample() {
    let r = result();
    assert_eq!(r.army_at_frame(200, 0), vec![(0x41, 2), (0x40, 1)]);
    assert_eq!(r.army_at_frame(100, 0), vec![(0x40, 2)]);
    assert_eq!(r.army_at_frame(120, 0), vec![(0x40, 2)]);
    assert_eq!(r.army_at_frame(1000, 0), vec![(0x40, 1), (0x41, 1)]);
    let empty = SimulationResult {
        total_frames: 0,
        snapshots: vec![],
        final_state: frame(0, vec![], vec![]),
    };
    assert!(empty.army_at_frame(0, 0).is_empty());
}

#[test]
fn sampling() {
    let config = SimConfig::default();
    assert_eq!(config.sample_interval, 24);
    assert!(wants_snapshot(48, &config));
    assert!(!wants_snapshot(50, &config));
}

#[test]
fn raw_conversions() {
    let u = Unit::from_raw(ObwUnit {
        unit_id: 7,
        player_id: 1,
        x: 5,
        y: 6,
        hp: 40 * 256 + 255,
        shields: -300,
        energy: 0,
        is_alive: 2,
    });
    assert_eq!(u.hp, 40);
    assert_eq!(u.shields, -1);
    assert!(u.alive);
    let p = PlayerState::from_raw(ObwPlayerInfo {
        player_id: 3,
        minerals: 50,
        gas: 0,
        supply_used: 8,
        supply_max: 20,
        race: 9,
    });
    assert_eq!(p.race, Race::Terran);
    assert_eq!(p.supply_used_halves, 8);
    assert_eq!(Race::from_raw(0), Race::Zerg);
    assert_eq!(Race::from_raw(2), Race::Protoss);
    assert_eq!(Race::Zerg.label(), "Zerg");
    assert_eq!(SimError(String::from("boom")).message(), "OpenBW error: boom");
}

#[test]
fn replay_sections_error() {
    assert_eq!(extract_replay_sections(&[0, 1]).unwrap_err(), "File too small to be a replay");
}

#[test]
fn default_settings() {
    let s = Settings::default();
    assert!(s.replay_folder.is_none());
    assert!(s.player_name.is_none());
    assert!(!s.advanced_mode);
}
