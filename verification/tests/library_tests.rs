use pathtobonjwa::library::{
    date_label, determine_result, format_date, game_outcome, newest_first, outcome_for_lowered,
    replay_result, GameOutcome,
};
use pathtobonjwa::parser::{
    CmdType, Command, Engine, GameSpeed, GameType, Player, PlayerColor, PlayerType, Race, Replay,
};

fn player(id: u8, name: &str, t: PlayerType) -> Player {
    Player {
        slot_id: id as u16,
        player_id: id,
        player_type: t,
        race: Race::Terran,
        team: id,
        name: name.to_string(),
        color: PlayerColor { r: 0, g: 0, b: 0 },
    }
}

fn replay(players: Vec<Player>, commands: Vec<Command>) -> Replay {
    Replay {
        engine: Engine::BroodWar,
        frames: 10000,
        timestamp: 0,
        title: String::new(),
        map_width: 128,
        map_height: 128,
        map_name: String::from("Map"),
        host_name: String::new(),
        game_speed: GameSpeed::Fastest,
        game_type: GameType::Melee,
        players,
        matchup: String::from("TvT"),
        commands,
    }
}

fn c(frame: u32, player_id: u8, cmd: CmdType) -> Command {
    Command { frame, player_id, cmd }
}

fn one_v_one(commands: Vec<Command>) -> Replay {
    replay(
        vec![player(0, "Flash", PlayerType::Human), player(1, "Jaedong", PlayerType::Human)],
        commands,
    )
}

#[test]
fn not_in_game() {
    let r = one_v_one(vec![]);
    assert_eq!(determine_result(&r, "Bisu"), "Not in game");
}

#[test]
fn single_leave_decides() {
    let r = one_v_one(vec![c(500, 1, CmdType::LeaveGame { reason: 1 })]);
    assert_eq!(determine_result(&r, "flash"), "Win");
    assert_eq!(determine_result(&r, "JAEDONG"), "Loss");
}

#[test]
fn earlier_leave_loses() {
    let r = one_v_one(vec![
        c(500, 0, CmdType::LeaveGame { reason: 1 }),
        c(600, 1, CmdType::LeaveGame { reason: 1 }),
    ]);
    assert_eq!(determine_result(&r, "Flash"), "Loss");
    assert_eq!(determine_result(&r, "Jae"), "Win");
}

#[test]
fn simultaneous_leave_falls_back_to_activity() {
    let r = one_v_one(vec![
        c(100, 0, CmdType::Stop),
        c(200, 1, CmdType::Stop),
        c(500, 0, CmdType::LeaveGame { reason: 1 }),
        c(500, 1, CmdType::LeaveGame { reason: 1 }),
    ]);
    assert_eq!(determine_result(&r, "Flash"), "Loss");
    assert_eq!(determine_result(&r, "Jaedong"), "Win");
}

#[test]
fn activity_needs_a_clear_gap() {
    let r = one_v_one(vec![c(100, 0, CmdType::Stop), c(123, 1, CmdType::Stop)]);
    assert_eq!(determine_result(&r, "Flash"), "Undetermined");
    let r = one_v_one(vec![c(100, 0, CmdType::Stop), c(124, 1, CmdType::Stop)]);
    assert_eq!(determine_result(&r, "Flash"), "Loss");
    assert_eq!(determine_result(&r, "Jaedong"), "Win");
}

#[test]
fn free_for_all_first_quit() {
    let r = replay(
        vec![
            player(0, "A", PlayerType::Human),
            player(1, "B", PlayerType::Human),
            player(2, "C", PlayerType::Human),
        ],
        vec![
            c(100, 2, CmdType::LeaveGame { reason: 3 }),
            c(200, 1, CmdType::LeaveGame { reason: 6 }),
            c(300, 0, CmdType::LeaveGame { reason: 1 }),
        ],
    );
    assert_eq!(determine_result(&r, "b"), "Loss");
    assert_eq!(determine_result(&r, "a"), "Win");
    let r = replay(r.players.clone(), vec![c(100, 2, CmdType::LeaveGame { reason: 3 })]);
    assert_eq!(determine_result(&r, "a"), "Undetermined");
}

#[test]
fn computers_are_not_opponents() {
    let r = replay(
        vec![player(0, "Me", PlayerType::Human), player(1, "Bot", PlayerType::Computer)],
        vec![c(100, 1, CmdType::Stop), c(5000, 0, CmdType::Stop)],
    );
    assert_eq!(determine_result(&r, "me"), "Undetermined");
}

#[test]
fn outcome_for_given_lowercase_names() {
    let r = one_v_one(vec![c(500, 1, CmdType::LeaveGame { reason: 1 })]);
    let names = vec![String::from("flash"), String::from("jaedong")];
    assert_eq!(outcome_for_lowered(&r, &names, "jae"), GameOutcome::Loss);
    assert_eq!(outcome_for_lowered(&r, &names, "ash"), GameOutcome::Win);
    assert_eq!(outcome_for_lowered(&r, &names, "Flash"), GameOutcome::NotInGame);
    assert_eq!(game_outcome(&r, "FLASH"), GameOutcome::Win);
}

#[test]
fn mirrored_outcomes() {
    for cmds in [
        vec![c(500, 0, CmdType::LeaveGame { reason: 1 })],
        vec![c(50, 1, CmdType::Stop), c(500, 0, CmdType::Build { order_id: 0, x: 0, y: 0, unit_id: 0x6F })],
        vec![c(50, 1, CmdType::Stop)],
    ] {
        let r = one_v_one(cmds);
        let a = game_outcome(&r, "Flash");
        let b = game_outcome(&r, "Jaedong");
        let mirrored = match b {
            GameOutcome::Win => GameOutcome::Loss,
            GameOutcome::Loss => GameOutcome::Win,
            o => o,
        };
        assert_eq!(a, mirrored);
    }
}

#[test]
fn library_entry_result() {
    let r = one_v_one(vec![c(500, 1, CmdType::LeaveGame { reason: 1 })]);
    assert_eq!(replay_result(&r, None), "Undetermined");
    assert_eq!(replay_result(&r, Some("")), "Undetermined");
    assert_eq!(replay_result(&r, Some("Flash")), "Win");
    assert_eq!(replay_result(&r, Some("jaedong")), "Loss");
    // A name that no player goes by leaves the entry undetermined.
    assert_eq!(replay_result(&r, Some("Bisu")), "Undetermined");
    let empty = replay(vec![], vec![]);
    assert_eq!(replay_result(&empty, Some("x")), "Undetermined");
}

#[test]
fn newest_first_listing() {
    assert_eq!(newest_first(&vec![]), Vec::<usize>::new());
    assert_eq!(newest_first(&vec![10, 30, 20, 30, 10]), vec![1, 3, 2, 0, 4]);
    assert_eq!(newest_first(&vec![-1, i64::MAX, 0]), vec![1, 2, 0]);
}

#[test]
fn dates() {
    assert_eq!(format_date(1431648000), "2015-05-15 00:00");
    assert_eq!(format_date(0), "1970-01-01 00:00");
    assert_eq!(format_date(i64::MAX), "Unknown");
    assert_eq!(date_label(None), "Unknown");
    assert_eq!(date_label(Some(String::from("x"))), "x");
}
