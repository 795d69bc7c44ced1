//! The replay header (section 1): game settings and the twelve player slots.
use super::matchup::{build_matchup, matchup_of};
use super::{
    bw_color, bw_color_at, engine_of, game_speed_of, game_type_of, is_active_type,
    player_type_of, players_view, race_of, Engine, GameSpeed, GameType, Player,
    PlayerColor, PlayerType, PlayerView, Race, Replay, ReplayView,
};
use crate::bytes::{le16, le32, le_i32, read_i32_le, read_u16_le, read_u32_le};
use crate::text::{lossy_text, utf8_lossy};
use vstd::prelude::*;

verus! {

/// The size of the replay header in bytes.
pub const HEADER_SIZE: usize = 0x279;

/// Offset of the first of the twelve 36-byte player slots.
pub const PLAYER_SLOTS: usize = 0xA1;

/// Offset of the eight 4-byte player colour indices.
pub const PLAYER_COLORS: usize = 0x251;

/// The end of the text field that starts at `i` and may run up to `lim`: the
/// first zero byte, or `lim`.
pub open spec fn field_end(s: Seq<u8>, i: int, lim: int) -> int
    decreases lim - i,
{
    if i >= lim || s[i] == 0 {
        i
    } else {
        field_end(s, i + 1, lim)
    }
}

/// The bytes of a zero-terminated text field of at most `max_len` bytes at the
/// start of `d`.
pub open spec fn field_bytes(d: Seq<u8>, max_len: int) -> Seq<u8> {
    let lim = if max_len < d.len() {
        max_len
    } else {
        d.len() as int
    };
    d.subrange(0, field_end(d, 0, lim))
}

/// The text of a zero-terminated field of at most `max_len` bytes at the start of `d`.
pub open spec fn field_text(d: Seq<u8>, max_len: int) -> Seq<char> {
    utf8_lossy(field_bytes(d, max_len))
}

proof fn lemma_field_end_bounds(s: Seq<u8>, i: int, lim: int)
    requires
        0 <= i <= lim <= s.len(),
    ensures
        i <= field_end(s, i, lim) <= lim,
        forall|k: int| i <= k < field_end(s, i, lim) ==> s[k] != 0,
        field_end(s, i, lim) < lim ==> s[field_end(s, i, lim)] == 0,
    decreases lim - i,
{
    if i < lim && s[i] != 0 {
        lemma_field_end_bounds(s, i + 1, lim);
    }
}

/// A text field holds at most `max_len` bytes, none of them zero, and ends
/// before the first zero byte.
pub proof fn field_stops_at_zero(d: Seq<u8>, max_len: int)
    requires
        max_len >= 0,
    ensures
        field_bytes(d, max_len).len() <= max_len,
        forall|k: int|
            0 <= k < field_bytes(d, max_len).len() ==> #[trigger] field_bytes(d, max_len)[k] != 0,
        field_bytes(d, max_len).len() < max_len && field_bytes(d, max_len).len() < d.len() ==> d[
            field_bytes(d, max_len).len() as int] == 0,
{
    let lim = if max_len < d.len() {
        max_len
    } else {
        d.len() as int
    };
    lemma_field_end_bounds(d, 0, lim);
}

/// Reads a zero-terminated text field of at most `max_len` bytes at the start of
/// `data`, decoding it as UTF-8 (invalid sequences replaced).
pub fn read_null_terminated(data: &[u8], max_len: usize) -> (r: String)
    ensures
        r@ == field_text(data@, max_len as int),
{
    let len = if max_len < data.len() {
        max_len
    } else {
        data.len()
    };
    let mut end: usize = 0;
    while end < len && data[end] != 0
        invariant
            end <= len <= data@.len(),
            len == (if max_len < data@.len() {
                max_len as int
            } else {
                data@.len() as int
            }),
            field_end(data@, end as int, len as int) == field_end(data@, 0, len as int),
        decreases len - end,
    {
        end = end + 1;
    }
    lossy_text(&data[0..end])
}

/// Offset of player slot `i`.
pub open spec fn slot_base(i: int) -> int {
    PLAYER_SLOTS + 36 * i
}

/// The colour of the player in slot `i`: for the first eight slots the colour
/// whose index the header stores, or the slot's own standard colour when that
/// index is out of range; the first standard colour for the other slots.
pub open spec fn slot_color(h: Seq<u8>, i: int) -> PlayerColor {
    if i < 8 {
        let id = le32(h, PLAYER_COLORS + 4 * i);
        if id < 8 {
            bw_color(id as int)
        } else {
            bw_color(i % 8)
        }
    } else {
        bw_color(0)
    }
}

/// The player described by slot `i` of header `h`.
pub open spec fn slot_player(h: Seq<u8>, i: int) -> PlayerView {
    let b = slot_base(i);
    PlayerView {
        slot_id: le16(h, b),
        player_id: h[b + 4],
        player_type: player_type_of(h[b + 8]),
        race: race_of(h[b + 9]),
        team: h[b + 10],
        name: field_text(h.subrange(b + 11, b + 36), 25),
        color: slot_color(h, i),
    }
}

/// The players of the active slots from slot `i` on (of twelve), in slot order.
pub open spec fn slot_players(h: Seq<u8>, i: int) -> Seq<PlayerView>
    decreases 12 - i,
{
    if i >= 12 {
        seq![]
    } else if is_active_type(player_type_of(h[slot_base(i) + 8])) {
        seq![slot_player(h, i)] + slot_players(h, i + 1)
    } else {
        slot_players(h, i + 1)
    }
}

/// The replay that header `h` describes, with no commands.
pub open spec fn header_replay(h: Seq<u8>) -> ReplayView {
    let players = slot_players(h, 0);
    ReplayView {
        engine: engine_of(h[0x00]),
        frames: le32(h, 0x01),
        timestamp: le_i32(h, 0x08) as i64,
        title: field_text(h.subrange(0x18, h.len() as int), 28),
        map_width: le16(h, 0x34),
        map_height: le16(h, 0x36),
        map_name: field_text(h.subrange(0x61, h.len() as int), 26),
        host_name: field_text(h.subrange(0x48, h.len() as int), 24),
        game_speed: game_speed_of(h[0x3A]),
        game_type: game_type_of(le16(h, 0x3C)),
        players,
        matchup: matchup_of(players),
        commands: seq![],
    }
}

fn slot_color_at(h: &[u8], i: usize) -> (c: PlayerColor)
    requires
        h@.len() >= HEADER_SIZE,
        i < 12,
    ensures
        c == slot_color(h@, i as int),
{
    if i < 8 {
        let id = read_u32_le(h, PLAYER_COLORS + 4 * i);
        if id < 8 {
            bw_color_at(id as usize)
        } else {
            bw_color_at(i % 8)
        }
    } else {
        bw_color_at(0)
    }
}

/// Parses a decompressed header (at least `HEADER_SIZE` bytes); the result has no
/// commands.
pub fn parse_header(h: &[u8]) -> (r: Replay)
    requires
        h@.len() >= HEADER_SIZE,
    ensures
        r@ == header_replay(h@),
{
    let engine = Engine::from_byte(h[0x00]);
    let frames = read_u32_le(h, 0x01);
    let timestamp = read_i32_le(h, 0x08) as i64;
    let title = read_null_terminated(&h[0x18..h.len()], 28);
    let map_width = read_u16_le(h, 0x34);
    let map_height = read_u16_le(h, 0x36);
    let game_speed = GameSpeed::from_byte(h[0x3A]);
    let game_type = GameType::from_u16(read_u16_le(h, 0x3C));
    let host_name = read_null_terminated(&h[0x48..h.len()], 24);
    let map_name = read_null_terminated(&h[0x61..h.len()], 26);
    let ghost hs = h@;
    let mut players: Vec<Player> = Vec::new();
    let mut i: usize = 0;
    while i < 12
        invariant
            i <= 12,
            hs == h@,
            hs.len() >= HEADER_SIZE,
            players_view(players@) + slot_players(hs, i as int) == slot_players(hs, 0),
        decreases 12 - i,
    {
        let base = PLAYER_SLOTS + i * 36;
        let slot_id = read_u16_le(h, base);
        let player_id = h[base + 4];
        let player_type = PlayerType::from_byte(h[base + 8]);
        let race = Race::from_byte(h[base + 9]);
        let team = h[base + 10];
        let name = read_null_terminated(&h[base + 11..base + 36], 25);
        if player_type.is_active() {
            let color = slot_color_at(h, i);
            let p = Player { slot_id, player_id, player_type, race, team, name, color };
            let ghost before = players@;
            players.push(p);
            assert(p@ == slot_player(hs, i as int));
            assert(players_view(players@) =~= players_view(before).push(p@));
            assert(players_view(players@) + slot_players(hs, (i + 1) as int) =~= players_view(
                before,
            ) + slot_players(hs, i as int));
        }
        i = i + 1;
    }
    assert(players_view(players@) =~= slot_players(hs, 0));
    let matchup = build_matchup(players.as_slice());
    Replay {
        engine,
        frames,
        timestamp,
        title,
        map_width,
        map_height,
        map_name,
        host_name,
        game_speed,
        game_type,
        players,
        matchup,
        commands: Vec::new(),
    }
}


proof fn lemma_slot_players(h: Seq<u8>, i: int)
    requires
        0 <= i <= 12,
    ensures
        slot_players(h, i).len() <= 12 - i,
        forall|k: int|
            0 <= k < slot_players(h, i).len() ==> is_active_type(
                (#[trigger] slot_players(h, i)[k]).player_type,
            ),
    decreases 12 - i,
{
    if i < 12 {
        lemma_slot_players(h, i + 1);
        let rest = slot_players(h, i + 1);
        if is_active_type(player_type_of(h[slot_base(i) + 8])) {
            let all = slot_players(h, i);
            assert forall|k: int| 0 <= k < all.len() implies is_active_type(
                (#[trigger] all[k]).player_type,
            ) by {
                if k > 0 {
                    assert(all[k] == rest[k - 1]);
                }
            }
        }
    }
}

/// A header describes at most twelve players, each of them active (a human or a
/// computer).
pub proof fn header_players_are_active(h: Seq<u8>)
    ensures
        header_replay(h).players.len() <= 12,
        forall|k: int|
            0 <= k < header_replay(h).players.len() ==> is_active_type(
                (#[trigger] header_replay(h).players[k]).player_type,
            ),
{
    lemma_slot_players(h, 0);
}

/// The header's game settings decode by their documented codes: the game type
/// (the `u16` at 0x3C) is Melee for 0x02, Free For All for 0x03, 1on1 for 0x04,
/// Capture The Flag 0x05, Greed 0x06, Slaughter 0x07, Sudden Death 0x08, Ladder
/// 0x09, Use Map Settings 0x0A, Team Melee 0x0B, Team FFA 0x0C, Team CTF 0x0D and
/// Top vs Bottom 0x0F, and any other code is kept as unknown; the speed byte
/// (0x3A) runs from Slowest (0) to Fastest (6); the engine byte (0x00) is
/// StarCraft for 0 and Brood War for 1.
pub proof fn header_setting_codes(h: Seq<u8>)
    ensures
        ({
            let r = header_replay(h);
            let t = le16(h, 0x3C);
            let sp = h[0x3A];
            &&& (r.game_type == GameType::Melee <==> t == 0x02)
            &&& (r.game_type == GameType::FreeForAll <==> t == 0x03)
            &&& (r.game_type == GameType::OneOnOne <==> t == 0x04)
            &&& (r.game_type == GameType::CaptureTheFlag <==> t == 0x05)
            &&& (r.game_type == GameType::Greed <==> t == 0x06)
            &&& (r.game_type == GameType::Slaughter <==> t == 0x07)
            &&& (r.game_type == GameType::SuddenDeath <==> t == 0x08)
            &&& (r.game_type == GameType::Ladder <==> t == 0x09)
            &&& (r.game_type == GameType::UseMapSettings <==> t == 0x0A)
            &&& (r.game_type == GameType::TeamMelee <==> t == 0x0B)
            &&& (r.game_type == GameType::TeamFreeForAll <==> t == 0x0C)
            &&& (r.game_type == GameType::TeamCaptureTheFlag <==> t == 0x0D)
            &&& (r.game_type == GameType::TopVsBottom <==> t == 0x0F)
            &&& (r.game_type matches GameType::Unknown(v) ==> v == t)
            &&& (r.game_speed == GameSpeed::Slowest <==> sp == 0)
            &&& (r.game_speed == GameSpeed::Slower <==> sp == 1)
            &&& (r.game_speed == GameSpeed::Slow <==> sp == 2)
            &&& (r.game_speed == GameSpeed::Normal <==> sp == 3)
            &&& (r.game_speed == GameSpeed::Fast <==> sp == 4)
            &&& (r.game_speed == GameSpeed::Faster <==> sp == 5)
            &&& (r.game_speed == GameSpeed::Fastest <==> sp == 6)
            &&& (r.game_speed matches GameSpeed::Unknown(v) ==> v == sp)
            &&& (r.engine == Engine::StarCraft <==> h[0] == 0)
            &&& (r.engine == Engine::BroodWar <==> h[0] == 1)
            &&& (r.engine matches Engine::Unknown(v) ==> v == h[0])
        }),
{
}

/// A player slot's race byte decodes as Zerg for 0, Terran for 1 and Protoss for
/// 2, and is kept as unknown otherwise.
pub proof fn slot_race_codes(h: Seq<u8>, i: int)
    ensures
        ({
            let b = h[slot_base(i) + 9];
            let race = slot_player(h, i).race;
            &&& (race == Race::Zerg <==> b == 0)
            &&& (race == Race::Terran <==> b == 1)
            &&& (race == Race::Protoss <==> b == 2)
            &&& (race matches Race::Unknown(v) ==> v == b)
        }),
{
}

} // verus!
