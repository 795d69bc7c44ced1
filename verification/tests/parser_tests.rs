use std::io::Write;

use pathtobonjwa::parser::commands::parse_commands;
use pathtobonjwa::parser::costs::{
    is_worker, starting_supply, tech_cost, unit_cost, upgrade_cost, UnitCost,
};
use pathtobonjwa::parser::header::{parse_header, read_null_terminated, HEADER_SIZE};
use pathtobonjwa::parser::matchup::build_matchup;
use pathtobonjwa::parser::sections::{chunk_data, read_section_at, SectionError};
use pathtobonjwa::parser::{
    extract_raw_sections, is_building, parse_replay, parse_replay_checked, unit_name, CmdType,
    Command, Engine, GameSpeed, GameType, HotkeyAction, Player, PlayerColor, PlayerType, Race,
    ReplayError,
};

fn zlib(data: &[u8]) -> Vec<u8> {
    let mut e = flate2::write::ZlibEncoder::new(Vec::new(), flate2::Compression::default());
    e.write_all(data).unwrap();
    e.finish().unwrap()
}

fn section(chunks: &[Vec<u8>]) -> Vec<u8> {
    let mut out = Vec::new();
    out.extend_from_slice(&0u32.to_le_bytes());
    out.extend_from_slice(&(chunks.len() as u32).to_le_bytes());
    for c in chunks {
        out.extend_from_slice(&(c.len() as u32).to_le_bytes());
        out.extend_from_slice(c);
    }
    out
}

fn stored(data: &[u8]) -> Vec<u8> {
    section(&[data.to_vec()])
}

fn compressed(data: &[u8]) -> Vec<u8> {
    section(&[zlib(data)])
}

fn header_with_players() -> Vec<u8> {
    let mut h = vec![0u8; HEADER_SIZE];
    h[0x00] = 1;
    h[0x01..0x05].copy_from_slice(&2381u32.to_le_bytes());
    h[0x08..0x0C].copy_from_slice(&(-5i32).to_le_bytes());
    h[0x18..0x1C].copy_from_slice(b"Game");
    h[0x34..0x36].copy_from_slice(&128u16.to_le_bytes());
    h[0x36..0x38].copy_from_slice(&96u16.to_le_bytes());
    h[0x3A] = 6;
    h[0x3C..0x3E].copy_from_slice(&0x0Fu16.to_le_bytes());
    h[0x48..0x4C].copy_from_slice(b"Host");
    h[0x61..0x6B].copy_from_slice(b"Lost Temple"[..10].as_ref());
    // slot 0: human terran on team 1, colour index 3
    let s0 = 0xA1;
    h[s0..s0 + 2].copy_from_slice(&7u16.to_le_bytes());
    h[s0 + 4] = 0;
    h[s0 + 8] = 2;
    h[s0 + 9] = 1;
    h[s0 + 10] = 1;
    h[s0 + 11..s0 + 16].copy_from_slice(b"Flash");
    h[0x251..0x255].copy_from_slice(&3u32.to_le_bytes());
    // slot 1: inactive
    // slot 2: computer protoss on team 2, colour index out of range
    let s2 = 0xA1 + 72;
    h[s2 + 4] = 2;
    h[s2 + 8] = 5;
    h[s2 + 9] = 2;
    h[s2 + 10] = 2;
    h[s2 + 11..s2 + 14].copy_from_slice(b"Bot");
    h[0x259..0x25D].copy_from_slice(&99u32.to_le_bytes());
    // slot 9: human zerg on team 2 (no colour entry)
    let s9 = 0xA1 + 9 * 36;
    h[s9 + 4] = 9;
    h[s9 + 8] = 6;
    h[s9 + 9] = 0;
    h[s9 + 10] = 2;
    h[s9 + 11..s9 + 15].copy_from_slice(b"Jaed");
    h
}

fn command_bytes() -> Vec<u8> {
    let mut c = Vec::new();
    // frame 5: hotkey assign group 3 by player 0, then build by player 0
    c.extend_from_slice(&5u32.to_le_bytes());
    c.push(4 + 9);
    c.extend_from_slice(&[0, 0x13, 0, 3]);
    c.extend_from_slice(&[0, 0x0C, 0x1E]);
    c.extend_from_slice(&10u16.to_le_bytes());
    c.extend_from_slice(&20u16.to_le_bytes());
    c.extend_from_slice(&0x6Du16.to_le_bytes());
    // frame 300: player 2 leaves (reason 1)
    c.extend_from_slice(&300u32.to_le_bytes());
    c.push(3);
    c.extend_from_slice(&[2, 0x57, 1]);
    c
}

fn modern_replay(header: &[u8], commands: &[u8]) -> Vec<u8> {
    let mut r = compressed(b"seRS");
    r.extend_from_slice(&0u32.to_le_bytes());
    r.extend_from_slice(&compressed(header));
    r.extend_from_slice(&compressed(&(commands.len() as u32).to_le_bytes()));
    r.extend_from_slice(&compressed(commands));
    r
}

#[test]
fn parses_header_fields_and_players() {
    let replay = parse_replay(&modern_replay(&header_with_players(), &command_bytes())).unwrap();
    assert_eq!(replay.engine, Engine::BroodWar);
    assert_eq!(replay.frames, 2381);
    assert_eq!(replay.timestamp, -5);
    assert_eq!(replay.title, "Game");
    assert_eq!(replay.map_width, 128);
    assert_eq!(replay.map_height, 96);
    assert_eq!(replay.map_name, "Lost Templ");
    assert_eq!(replay.host_name, "Host");
    assert_eq!(replay.game_speed, GameSpeed::Fastest);
    assert_eq!(replay.game_type, GameType::TopVsBottom);
    assert_eq!(replay.players.len(), 3);
    let p0 = &replay.players[0];
    assert_eq!(p0.slot_id, 7);
    assert_eq!(p0.name, "Flash");
    assert_eq!(p0.player_type, PlayerType::Human);
    assert_eq!(p0.race, Race::Terran);
    assert_eq!(p0.color, PlayerColor { r: 136, g: 64, b: 156 });
    let p1 = &replay.players[1];
    assert_eq!(p1.player_id, 2);
    assert_eq!(p1.player_type, PlayerType::Computer);
    assert_eq!(p1.color, PlayerColor { r: 44, g: 180, b: 148 });
    let p2 = &replay.players[2];
    assert_eq!(p2.name, "Jaed");
    assert_eq!(p2.color, PlayerColor { r: 244, g: 4, b: 4 });
    assert_eq!(replay.matchup, "TvPZ");
    assert_eq!(replay.commands.len(), 3);
    assert_eq!(
        replay.commands[0],
        Command {
            frame: 5,
            player_id: 0,
            cmd: CmdType::Hotkey { hotkey_type: HotkeyAction::Assign, group: 3 }
        }
    );
    assert_eq!(
        replay.commands[1].cmd,
        CmdType::Build { order_id: 0x1E, x: 10, y: 20, unit_id: 0x6D }
    );
    assert_eq!(replay.commands[2].cmd, CmdType::LeaveGame { reason: 1 });
}

#[test]
fn legacy_replay_with_stored_sections() {
    let header = header_with_players();
    let commands = command_bytes();
    let mut r = stored(b"reRS");
    r.extend_from_slice(&stored(&header));
    r.extend_from_slice(&stored(&(commands.len() as u32).to_le_bytes()));
    r.extend_from_slice(&stored(&commands));
    let (h, c) = extract_raw_sections(&r).unwrap();
    assert_eq!(h, header);
    assert_eq!(c, commands);
    let replay = parse_replay(&r).unwrap();
    assert_eq!(replay.commands.len(), 3);
}

#[test]
fn header_split_over_chunks() {
    let header = header_with_players();
    // a section of two chunks: the first compressed, the second stored
    let mut r = stored(b"reRS");
    r.extend_from_slice(&section(&[zlib(&header[..600]), header[600..].to_vec()]));
    // but 0x279 bytes fit in one chunk: a first chunk of 600 bytes is not what
    // the section asks for, so it is refused
    r.extend_from_slice(&stored(&0u32.to_le_bytes()));
    r.extend_from_slice(&stored(&[]));
    assert_eq!(
        parse_replay_checked(&r).unwrap_err(),
        ReplayError::Section { section: 1, error: SectionError::Decompress }
    );
}

#[test]
fn error_too_small() {
    assert_eq!(parse_replay_checked(&[1, 2, 3]).unwrap_err(), ReplayError::TooSmall);
    assert_eq!(parse_replay(&[1, 2, 3]).unwrap_err(), "File too small to be a replay");
}

#[test]
fn error_truncated_section() {
    let mut r = stored(b"seRS");
    r.truncate(10);
    let e = parse_replay_checked(&r).unwrap_err();
    assert_eq!(e, ReplayError::Section { section: 0, error: SectionError::Truncated });
    assert_eq!(e.message(), "File truncated in section 0");
    // a modern replay without the offset and header
    let r = compressed(b"seRS");
    assert_eq!(
        parse_replay_checked(&r).unwrap_err(),
        ReplayError::Section { section: 1, error: SectionError::Truncated }
    );
}

#[test]
fn error_bad_signature() {
    let r = stored(b"abcd");
    let e = parse_replay_checked(&r).unwrap_err();
    assert_eq!(e, ReplayError::BadSignature { b0: 0x61, b1: 0x62, b2: 0x63, b3: 0x64 });
    assert_eq!(
        parse_replay(&r).unwrap_err(),
        "Invalid replay signature: 61 62 63 64 (expected 'seRS' or 'reRS')"
    );
}

#[test]
fn error_decompress() {
    let mut r = stored(b"reRS");
    r.extend_from_slice(&section(&[vec![0x78, 0x01, 0x02]]));
    let e = parse_replay_checked(&r).unwrap_err();
    assert_eq!(e, ReplayError::Section { section: 1, error: SectionError::Decompress });
    assert_eq!(e.message(), "zlib decompress failed in section 1");
}

#[test]
fn error_size_mismatch() {
    let mut r = stored(b"reRS");
    // a section of no chunks holds nothing, not the header's 633 bytes
    r.extend_from_slice(&section(&[]));
    let e = parse_replay_checked(&r).unwrap_err();
    assert_eq!(e, ReplayError::Section { section: 1, error: SectionError::SizeMismatch });
    assert_eq!(e.message(), "Wrong data size in section 1");
}

#[test]
fn section_reader_reports_next_offset() {
    let mut data = compressed(b"abc");
    data.extend_from_slice(&[9, 9]);
    let (v, next) = read_section_at(&data, 0, 3).unwrap();
    assert_eq!(v, b"abc".to_vec());
    assert_eq!(next, data.len() - 2);
    assert_eq!(read_section_at(&data, 0, 4).unwrap_err(), SectionError::Decompress);
}

#[test]
fn chunk_data_rules() {
    assert_eq!(chunk_data(&[1, 2, 3], Some(vec![7, 8]), 2), Some(vec![7, 8]));
    assert_eq!(chunk_data(&[1, 2, 3], Some(vec![7, 8]), 3), Some(vec![1, 2, 3]));
    assert_eq!(chunk_data(&[1, 2, 3], None, 3), Some(vec![1, 2, 3]));
    assert_eq!(chunk_data(&[1, 2, 3], None, 4), None);
}

#[test]
fn command_stream_decoding() {
    let mut c = Vec::new();
    // frame 1: 1.21 right click (11 parameter bytes), 1.21 targeted order (12)
    c.extend_from_slice(&1u32.to_le_bytes());
    c.push(2 + 11 + 2 + 12);
    c.extend_from_slice(&[1, 0x60]);
    c.extend_from_slice(&[0x10, 0, 0x20, 0, 5, 0, 0, 0, 0x41, 0, 1]);
    c.extend_from_slice(&[1, 0x61]);
    c.extend_from_slice(&[1, 0, 2, 0, 3, 0, 0, 0, 0x42, 0, 0x0E, 0]);
    // frame 2: a selection of two units, then an unknown code that ends the block
    c.extend_from_slice(&2u32.to_le_bytes());
    c.push(2 + 5 + 2 + 3);
    c.extend_from_slice(&[0, 0x09, 2, 1, 0, 2, 0]);
    c.extend_from_slice(&[0, 0xEE, 1, 2, 3]);
    // frame 3: a train command cut short by the block's end (dropped)
    c.extend_from_slice(&3u32.to_le_bytes());
    c.push(3);
    c.extend_from_slice(&[0, 0x1F, 0x40]);
    // frame 4: a block running past the end of the stream
    c.extend_from_slice(&4u32.to_le_bytes());
    c.push(50);
    c.extend_from_slice(&[0, 0x05]);
    let cmds = parse_commands(&c);
    assert_eq!(
        cmds,
        vec![
            Command {
                frame: 1,
                player_id: 1,
                cmd: CmdType::RightClick { x: 0x10, y: 0x20, target: 5, unit_id: 0x41, queued: true }
            },
            Command {
                frame: 1,
                player_id: 1,
                cmd: CmdType::TargetedOrder {
                    x: 1,
                    y: 2,
                    target: 3,
                    unit_id: 0x42,
                    order_id: 0x0E,
                    queued: false
                }
            },
            Command { frame: 2, player_id: 0, cmd: CmdType::Select { count: 2 } },
            Command { frame: 2, player_id: 0, cmd: CmdType::Other { cmd_id: 0xEE } },
        ]
    );
}

#[test]
fn byte_readers() {
    // Little-endian fields of every width, read through the header parser.
    let mut h = vec![0u8; HEADER_SIZE];
    h[0x01..0x05].copy_from_slice(&[0x01, 0x02, 0xFF, 0xFF]);
    h[0x08..0x0C].copy_from_slice(&[0xFF, 0xFF, 0xFF, 0xFF]);
    h[0x34..0x36].copy_from_slice(&[0x01, 0x02]);
    h[0x36..0x38].copy_from_slice(&[0xFF, 0x00]);
    h[0x3C..0x3E].copy_from_slice(&[0x34, 0x12]);
    let r = parse_header(&h);
    assert_eq!(r.frames, 0xFFFF_0201);
    assert_eq!(r.timestamp, -1);
    assert_eq!(r.map_width, 0x0201);
    assert_eq!(r.map_height, 0x00FF);
    assert_eq!(r.game_type, GameType::Unknown(0x1234));
}

#[test]
fn null_terminated_fields() {
    assert_eq!(read_null_terminated(b"abc\0def", 10), "abc");
    assert_eq!(read_null_terminated(b"abcdef", 4), "abcd");
    assert_eq!(read_null_terminated(b"ab", 10), "ab");
    assert_eq!(read_null_terminated(&[b'a', 0xFF, 0], 10), "a\u{FFFD}");
}

fn player(id: u8, race: Race, team: u8) -> Player {
    Player {
        slot_id: id as u16,
        player_id: id,
        player_type: PlayerType::Human,
        race,
        team,
        name: format!("p{}", id),
        color: PlayerColor { r: 0, g: 0, b: 0 },
    }
}

#[test]
fn matchups() {
    assert_eq!(build_matchup(&[]), "");
    assert_eq!(
        build_matchup(&[player(0, Race::Terran, 1), player(1, Race::Protoss, 2)]),
        "TvP"
    );
    assert_eq!(
        build_matchup(&[player(0, Race::Zerg, 1), player(1, Race::Zerg, 1)]),
        "ZvZ"
    );
    assert_eq!(
        build_matchup(&[
            player(0, Race::Zerg, 1),
            player(1, Race::Terran, 2),
            player(2, Race::Protoss, 1),
            player(3, Race::Unknown(9), 2),
        ]),
        "PZv?T"
    );
    assert_eq!(
        build_matchup(&[
            player(0, Race::Zerg, 3),
            player(1, Race::Terran, 3),
            player(2, Race::Zerg, 3),
            player(3, Race::Protoss, 1),
        ]),
        "PvTZZ"
    );
}

#[test]
fn header_parse_direct() {
    let h = header_with_players();
    let replay = parse_header(&h);
    assert!(replay.commands.is_empty());
    assert_eq!(replay.players.len(), 3);
    for p in &replay.players {
        assert!(p.player_type.is_active());
    }
}

#[test]
fn labels() {
    assert_eq!(Race::Zerg.short(), "Z");
    assert_eq!(Race::Unknown(4).short(), "?");
    assert_eq!(Race::Protoss.label(), "Protoss");
    assert_eq!(Race::Unknown(17).label(), "Unknown(17)");
    assert_eq!(PlayerType::RescuePassive.label(), "Rescue");
    assert_eq!(PlayerType::Unknown(4).label(), "Unknown(4)");
    assert!(!PlayerType::Inactive.is_active());
    assert_eq!(Engine::BroodWar.label(), "Brood War");
    assert_eq!(Engine::Unknown(3).label(), "Unknown(3)");
    assert_eq!(GameSpeed::Fastest.label(), "Fastest");
    assert_eq!(GameSpeed::Unknown(200).label(), "Unknown(200)");
    assert_eq!(GameType::OneOnOne.label(), "1on1");
    assert_eq!(GameType::Unknown(0x0E).label(), "Unknown(0x0E)");
    assert_eq!(GameType::Unknown(0x1234).label(), "Unknown(0x1234)");
}

#[test]
fn costs() {
    assert_eq!(
        unit_cost(0x25),
        Some(UnitCost { minerals: 25, gas: 0, supply_halves: 1 })
    );
    assert_eq!(
        unit_cost(0x2A),
        Some(UnitCost { minerals: 100, gas: 0, supply_halves: -16 })
    );
    assert_eq!(
        unit_cost(0x0C),
        Some(UnitCost { minerals: 400, gas: 300, supply_halves: 12 })
    );
    assert_eq!(unit_cost(0x04), None);
    assert_eq!(starting_supply(&Race::Zerg), (8, 18));
    assert_eq!(starting_supply(&Race::Unknown(5)), (8, 20));
    assert_eq!(upgrade_cost(15), (200, 200));
    assert_eq!(upgrade_cost(200), (150, 150));
    assert_eq!(tech_cost(11), (25, 75));
    assert_eq!(tech_cost(4), (150, 150));
    assert!(is_worker(0x07) && is_worker(0x29) && is_worker(0x40));
    assert!(!is_worker(0x00));
}

#[test]
fn unit_names() {
    assert_eq!(unit_name(0x00), "Marine");
    assert_eq!(unit_name(0x25), "Zergling");
    assert_eq!(unit_name(0x61), "Lurker Egg");
    assert_eq!(unit_name(0x04), "Unknown");
    assert!(is_building(0x6A) && is_building(0xAC));
    assert!(!is_building(0x69) && !is_building(0xAD));
}

#[test]
fn active_controller_codes() {
    // Slot i has controller byte i: only bytes 1, 2, 5, 6 and 7 are active.
    let mut h = vec![0u8; HEADER_SIZE];
    for i in 0..12usize {
        let base = 0xA1 + 36 * i;
        h[base + 4] = i as u8;
        h[base + 8] = i as u8;
    }
    let r = parse_header(&h);
    let ids: Vec<u8> = r.players.iter().map(|p| p.player_id).collect();
    assert_eq!(ids, vec![1, 2, 5, 6, 7]);
    let types: Vec<PlayerType> = r.players.iter().map(|p| p.player_type).collect();
    assert_eq!(
        types,
        vec![
            PlayerType::Computer,
            PlayerType::Human,
            PlayerType::Computer,
            PlayerType::Human,
            PlayerType::Computer
        ]
    );
    assert!(PlayerType::Human.is_active() && PlayerType::Computer.is_active());
    assert!(!PlayerType::RescuePassive.is_active() && !PlayerType::Unknown(4).is_active());
}
