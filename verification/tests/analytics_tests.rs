use pathtobonjwa::analytics::apm::{count_actions, is_ineffective, is_player_action, is_selection_changer};
use pathtobonjwa::analytics::build_order::{extract_build_order, format_clock};
use pathtobonjwa::analytics::csv::escape_csv;
use pathtobonjwa::analytics::hotkeys::{compute_hotkey_stats, HotkeyGroup};
use pathtobonjwa::analytics::idle::{find_idle_spans, IdleSpan};
use pathtobonjwa::parser::{CmdType, Command, HotkeyAction, Race};

fn c(frame: u32, player_id: u8, cmd: CmdType) -> Command {
    Command { frame, player_id, cmd }
}

fn hotkey(t: HotkeyAction, group: u8) -> CmdType {
    CmdType::Hotkey { hotkey_type: t, group }
}

fn rc(x: u16, y: u16) -> CmdType {
    CmdType::RightClick { x, y, target: 0, unit_id: 0, queued: false }
}

#[test]
fn player_actions_and_selection_changers() {
    assert!(!is_player_action(&CmdType::KeepAlive));
    assert!(!is_player_action(&CmdType::Chat { sender: 1 }));
    assert!(!is_player_action(&CmdType::LeaveGame { reason: 1 }));
    assert!(!is_player_action(&CmdType::MinimapPing { x: 0, y: 0 }));
    assert!(!is_player_action(&CmdType::Other { cmd_id: 0x37 }));
    assert!(is_player_action(&CmdType::Stop));
    assert!(is_selection_changer(&CmdType::Select { count: 1 }));
    assert!(is_selection_changer(&hotkey(HotkeyAction::Select, 1)));
    assert!(!is_selection_changer(&hotkey(HotkeyAction::Assign, 1)));
    assert!(!is_selection_changer(&CmdType::ShiftSelect { count: 1 }));
}

#[test]
fn ineffective_rules() {
    let first = c(100, 0, CmdType::Stop);
    assert!(!is_ineffective(&first, None));
    // micro-interval spam
    assert!(is_ineffective(&c(102, 0, CmdType::Siege), Some(&first)));
    assert!(!is_ineffective(&c(103, 0, CmdType::Siege), Some(&first)));
    // an earlier frame counts as no delay
    assert!(is_ineffective(&c(50, 0, CmdType::Siege), Some(&first)));
    // selection cycling, except a double tap of the same group
    let sel = c(100, 0, CmdType::Select { count: 1 });
    assert!(is_ineffective(&c(120, 0, hotkey(HotkeyAction::Select, 2)), Some(&sel)));
    assert!(!is_ineffective(&c(129, 0, hotkey(HotkeyAction::Select, 2)), Some(&sel)));
    let h2 = c(100, 0, hotkey(HotkeyAction::Select, 2));
    assert!(!is_ineffective(&c(110, 0, hotkey(HotkeyAction::Select, 2)), Some(&h2)));
    assert!(is_ineffective(&c(110, 0, hotkey(HotkeyAction::Select, 3)), Some(&h2)));
    // worker training spam
    let probe = c(100, 0, CmdType::Train { unit_id: 0x40 });
    assert!(is_ineffective(&c(136, 0, CmdType::Train { unit_id: 0x40 }), Some(&probe)));
    assert!(!is_ineffective(&c(137, 0, CmdType::Train { unit_id: 0x40 }), Some(&probe)));
    let zealot = c(100, 0, CmdType::Train { unit_id: 0x41 });
    assert!(!is_ineffective(&c(110, 0, CmdType::Train { unit_id: 0x41 }), Some(&zealot)));
    // right-click spam nearby
    let click = c(100, 0, rc(1000, 1000));
    assert!(is_ineffective(&c(112, 0, rc(1128, 872)), Some(&click)));
    assert!(!is_ineffective(&c(112, 0, rc(1129, 1000)), Some(&click)));
    assert!(!is_ineffective(&c(113, 0, rc(1000, 1000)), Some(&click)));
    // targeted orders: same order nearby
    let order = |o: u8, x: u16| CmdType::TargetedOrder { x, y: 0, target: 0, unit_id: 0, order_id: o, queued: false };
    let o1 = c(100, 0, order(0x0E, 500));
    assert!(is_ineffective(&c(110, 0, order(0x0E, 600)), Some(&o1)));
    assert!(!is_ineffective(&c(110, 0, order(0x0F, 600)), Some(&o1)));
    // fast cancels
    let build = c(100, 0, CmdType::Build { order_id: 0x1E, x: 1, y: 1, unit_id: 0x6D });
    assert!(is_ineffective(&c(130, 0, CmdType::CancelBuild), Some(&build)));
    assert!(!is_ineffective(&c(131, 0, CmdType::CancelBuild), Some(&build)));
    let tech = c(100, 0, CmdType::Tech { tech_id: 0 });
    assert!(is_ineffective(&c(120, 0, CmdType::CancelTech), Some(&tech)));
    // repeated stop / hold / return cargo
    let hold = c(100, 0, CmdType::HoldPosition);
    assert!(is_ineffective(&c(120, 0, CmdType::HoldPosition), Some(&hold)));
    assert!(!is_ineffective(&c(121, 0, CmdType::HoldPosition), Some(&hold)));
    // repeated assign to the same group, at any distance
    let a = c(100, 0, hotkey(HotkeyAction::Assign, 4));
    assert!(is_ineffective(&c(5000, 0, hotkey(HotkeyAction::Assign, 4)), Some(&a)));
    assert!(!is_ineffective(&c(5000, 0, hotkey(HotkeyAction::Add, 4)), Some(&a)));
}

#[test]
fn action_counts_per_minute() {
    let cmds = vec![
        c(0, 0, CmdType::Stop),
        c(1, 0, CmdType::Siege),                 // spam: within 2 frames
        c(10, 1, CmdType::Stop),                 // other player
        c(20, 0, CmdType::KeepAlive),            // not an action
        c(1428, 0, CmdType::Burrow),             // still minute 0
        c(1429, 0, CmdType::Unburrow),           // minute 1, spam after previous
        c(100000, 0, CmdType::Stim),             // past the end: last bucket
    ];
    let counts = count_actions(&cmds, 0, 2000);
    assert_eq!(counts.apm_per_minute, vec![3, 2]);
    assert_eq!(counts.eapm_per_minute, vec![2, 1]);
    let none = count_actions(&[], 0, 0);
    assert_eq!(none.apm_per_minute, vec![0]);
    for (a, e) in counts.apm_per_minute.iter().zip(counts.eapm_per_minute.iter()) {
        assert!(e <= a);
    }
}

#[test]
fn build_order_dedup_and_workers() {
    let cmds = vec![
        c(0, 0, CmdType::Train { unit_id: 0x40 }),          // probe: worker, filtered
        c(100, 0, CmdType::Build { order_id: 0, x: 0, y: 0, unit_id: 0x9C }), // pylon
        c(110, 0, CmdType::Build { order_id: 0, x: 0, y: 0, unit_id: 0x9C }), // within 24 frames
        c(124, 0, CmdType::Build { order_id: 0, x: 0, y: 0, unit_id: 0x9C }), // 24 after: kept
        c(130, 1, CmdType::Train { unit_id: 0x41 }),        // other player
        c(1548, 0, CmdType::Train { unit_id: 0x41 }),       // zealot at 65 s
        c(1600, 0, CmdType::Train { unit_id: 0x04 }),       // unknown unit
        c(1700, 0, CmdType::UnitMorph { unit_id: 0x67 }),   // lurker
    ];
    let bo = extract_build_order(&cmds, 0, &Race::Protoss);
    let names: Vec<&str> = bo.iter().map(|e| e.unit_name.as_str()).collect();
    assert_eq!(names, vec!["Pylon", "Pylon", "Zealot", "Lurker"]);
    assert_eq!(bo[0].frame, 100);
    assert_eq!(bo[0].time_str, "0:04");
    assert_eq!(bo[1].frame, 124);
    assert_eq!(bo[2].time_str, "1:05");
    assert_eq!(bo[2].unit_id, 0x41);
}

#[test]
fn clock_format() {
    assert_eq!(format_clock(0), "0:00");
    assert_eq!(format_clock(65), "1:05");
    assert_eq!(format_clock(600), "10:00");
    assert_eq!(format_clock(3599), "59:59");
}

#[test]
fn hotkey_stats() {
    let cmds = vec![
        c(0, 0, hotkey(HotkeyAction::Assign, 1)),
        c(1, 0, hotkey(HotkeyAction::Select, 1)),
        c(2, 0, hotkey(HotkeyAction::Select, 1)),
        c(3, 0, hotkey(HotkeyAction::Add, 12)),
        c(4, 0, hotkey(HotkeyAction::Unknown(5), 1)),
        c(5, 1, hotkey(HotkeyAction::Assign, 1)),
    ];
    let stats = compute_hotkey_stats(&cmds, 0);
    assert_eq!(stats.groups[1].assigns, 1);
    assert_eq!(stats.groups[1].selects, 2);
    assert_eq!(stats.groups[1].adds, 0);
    assert_eq!(stats.groups[1].total(), 3);
    assert_eq!(stats.groups[9].adds, 1);
    assert_eq!(stats.groups[0].total(), 0);
    assert_eq!(HotkeyGroup { assigns: 1, selects: 2, adds: 3 }.total(), 6);
}

#[test]
fn idle_spans() {
    // 5 s threshold: 119.05 frames
    let cmds = vec![
        c(200, 0, CmdType::Stop),
        c(300, 0, CmdType::Stop),
        c(420, 0, CmdType::Stop),
        c(500, 0, CmdType::KeepAlive),
        c(1000, 0, CmdType::Stop),
    ];
    let spans = find_idle_spans(&cmds, 0, 2000, 500);
    assert_eq!(
        spans,
        vec![
            IdleSpan { start_frame: 0, end_frame: 200 },
            IdleSpan { start_frame: 300, end_frame: 420 },
            IdleSpan { start_frame: 420, end_frame: 1000 },
        ]
    );
    assert_eq!(
        find_idle_spans(&cmds, 7, 2000, 500),
        vec![IdleSpan { start_frame: 0, end_frame: 2000 }]
    );
    // A player who never acts in a game no longer than the threshold is not idle
    // for longer than the threshold: nothing is reported.
    assert_eq!(find_idle_spans(&cmds, 7, 10, 500), vec![]);
    assert_eq!(find_idle_spans(&cmds, 7, 119, 500), vec![]);
    assert_eq!(
        find_idle_spans(&cmds, 7, 120, 500),
        vec![IdleSpan { start_frame: 0, end_frame: 120 }]
    );
    let spans = find_idle_spans(&cmds, 0, 2000, 2000);
    assert_eq!(spans, vec![IdleSpan { start_frame: 420, end_frame: 1000 }]);
}

#[test]
fn csv_escaping() {
    assert_eq!(escape_csv("Lost Temple"), "Lost Temple");
    assert_eq!(escape_csv("a,b"), "\"a,b\"");
    assert_eq!(escape_csv("say \"hi\""), "\"say \"\"hi\"\"\"");
    assert_eq!(escape_csv("two\nlines"), "\"two\nlines\"");
    assert_eq!(escape_csv(""), "");
}

#[test]
fn build_order_ignores_other_players_and_race() {
    let all = vec![
        c(100, 0, CmdType::Build { order_id: 0, x: 0, y: 0, unit_id: 0x9C }),
        c(105, 1, CmdType::Build { order_id: 0, x: 0, y: 0, unit_id: 0x9C }),
        c(110, 1, CmdType::Train { unit_id: 0x41 }),
        c(200, 0, CmdType::Train { unit_id: 0x41 }),
        c(210, 2, CmdType::UnitMorph { unit_id: 0x67 }),
        c(300, 0, CmdType::UnitMorph { unit_id: 0x67 }),
    ];
    let own: Vec<Command> = all.iter().copied().filter(|x| x.player_id == 0).collect();
    let key = |bo: Vec<pathtobonjwa::analytics::build_order::BuildOrderEntry>| {
        bo.into_iter()
            .map(|e| (e.frame, e.time_str, e.unit_name, e.unit_id))
            .collect::<Vec<_>>()
    };
    let from_all = key(extract_build_order(&all, 0, &Race::Protoss));
    assert_eq!(from_all, key(extract_build_order(&own, 0, &Race::Zerg)));
    assert_eq!(from_all, key(extract_build_order(&all, 0, &Race::Unknown(9))));
    assert_eq!(from_all.len(), 3);
}

#[test]
fn ineffective_action_lowers_total_eapm() {
    // Two stops two frames apart: the second is spam.
    let cmds = vec![c(0, 0, CmdType::Stop), c(2, 0, CmdType::Stop), c(500, 0, CmdType::Siege)];
    let counts = count_actions(&cmds, 0, 3000);
    let apm: usize = counts.apm_per_minute.iter().sum();
    let eapm: usize = counts.eapm_per_minute.iter().sum();
    assert_eq!((apm, eapm), (3, 2));
    assert!(counts.eapm_per_minute[0] < counts.apm_per_minute[0]);
    // Without spam both totals agree.
    let clean = count_actions(&[c(0, 0, CmdType::Stop), c(500, 0, CmdType::Siege)], 0, 3000);
    assert_eq!(clean.apm_per_minute, clean.eapm_per_minute);
}
