//! Brood War replay (`.rep`) parsing: sections, header and command stream.
pub mod commands;
pub mod costs;
pub mod sections;
pub mod matchup;
pub mod header;
pub mod units;

pub use units::{is_building, unit_name};

use commands::{parse_command_stream, parse_commands};
use header::{header_replay, parse_header, HEADER_SIZE};
use sections::{read_section, read_section_at, SectionError};
use crate::bytes::{le32, read_u32_le};

use crate::text::{decimal, hex2, push_char, push_decimal, push_hex2, push_str};

use vstd::prelude::*;

verus! {

/// How a hotkey command uses its control group.
#[derive(Clone, Copy, Debug, PartialEq, Eq, Structural)]
pub enum HotkeyAction {
    Assign,
    Select,
    Add,
    Unknown(u8),
}

/// A decoded player command.  Commands that are not unit or production
/// orders (lobby, synchronisation, saving, unknown codes) are kept as `Other`.
#[derive(Clone, Copy, Debug, PartialEq, Eq, Structural)]
pub enum CmdType {
    KeepAlive,
    Select { count: u8 },
    ShiftSelect { count: u8 },
    ShiftDeselect { count: u8 },
    Build { order_id: u8, x: u16, y: u16, unit_id: u16 },
    Hotkey { hotkey_type: HotkeyAction, group: u8 },
    RightClick { x: u16, y: u16, target: u16, unit_id: u16, queued: bool },
    TargetedOrder { x: u16, y: u16, target: u16, unit_id: u16, order_id: u8, queued: bool },
    CancelBuild,
    CancelMorph,
    Stop,
    CarrierStop,
    ReaverStop,
    ReturnCargo,
    Train { unit_id: u16 },
    CancelTrain,
    Cloak,
    Decloak,
    UnitMorph { unit_id: u16 },
    Unsiege,
    Siege,
    TrainFighter,
    UnloadAll,
    Unload { unit_tag: u16 },
    MergeArchon,
    HoldPosition,
    Burrow,
    Unburrow,
    CancelNuke,
    LiftOff { x: u16, y: u16 },
    Tech { tech_id: u8 },
    CancelTech,
    Upgrade { upgrade_id: u8 },
    CancelUpgrade,
    CancelAddon,
    BuildingMorph { unit_id: u16 },
    Stim,
    MergeDarkArchon,
    LeaveGame { reason: u8 },
    MinimapPing { x: u16, y: u16 },
    Chat { sender: u8 },
    Other { cmd_id: u8 },
}

/// One command of the command stream, with the frame it was issued on.
#[derive(Clone, Copy, Debug, PartialEq, Eq, Structural)]
pub struct Command {
    pub frame: u32,
    pub player_id: u8,
    pub cmd: CmdType,
}


/// A player's race as stored in the replay header.
#[derive(Clone, Copy, Debug, PartialEq, Eq, Structural)]
pub enum Race {
    Zerg,
    Terran,
    Protoss,
    Unknown(u8),
}

/// The race coded by a header byte.
pub open spec fn race_of(b: u8) -> Race {
    if b == 0 {
        Race::Zerg
    } else if b == 1 {
        Race::Terran
    } else if b == 2 {
        Race::Protoss
    } else {
        Race::Unknown(b)
    }
}

/// The one-letter abbreviation of a race: `Z`, `T`, `P`, or `?` when unknown.
pub open spec fn race_letter(r: Race) -> char {
    match r {
        Race::Zerg => 'Z',
        Race::Terran => 'T',
        Race::Protoss => 'P',
        Race::Unknown(_) => '?',
    }
}

/// The display name of a race.
pub open spec fn race_label(r: Race) -> Seq<char> {
    match r {
        Race::Zerg => "Zerg"@,
        Race::Terran => "Terran"@,
        Race::Protoss => "Protoss"@,
        Race::Unknown(v) => "Unknown("@ + decimal(v as nat) + seq![')'],
    }
}

impl Race {
    fn from_byte(b: u8) -> (r: Race)
        ensures
            r == race_of(b),
    {
        match b {
            0 => Race::Zerg,
            1 => Race::Terran,
            2 => Race::Protoss,
            _ => Race::Unknown(b),
        }
    }

    /// The one-letter abbreviation used in matchups.
    pub fn short(&self) -> (r: &'static str)
        ensures
            r@ == seq![race_letter(*self)],
    {
        proof {
            reveal_strlit("Z");
            reveal_strlit("T");
            reveal_strlit("P");
            reveal_strlit("?");
        }
        match self {
            Race::Zerg => "Z",
            Race::Terran => "T",
            Race::Protoss => "P",
            Race::Unknown(_) => "?",
        }
    }

    /// The display name of the race.
    pub fn label(&self) -> (r: String)
        ensures
            r@ == race_label(*self),
    {
        match self {
            Race::Zerg => String::from_str("Zerg"),
            Race::Terran => String::from_str("Terran"),
            Race::Protoss => String::from_str("Protoss"),
            Race::Unknown(v) => {
                let mut s = String::from_str("Unknown(");
                push_decimal(&mut s, *v as u64);
                push_char(&mut s, ')');
                s
            },
        }
    }
}

/// A header slot's controller.
#[derive(Clone, Copy, Debug, PartialEq, Eq, Structural)]
pub enum PlayerType {
    Inactive,
    Computer,
    Human,
    RescuePassive,
    Unknown(u8),
}

/// The controller coded by a header byte.
pub open spec fn player_type_of(b: u8) -> PlayerType {
    if b == 0 {
        PlayerType::Inactive
    } else if b == 1 || b == 5 || b == 7 {
        PlayerType::Computer
    } else if b == 2 || b == 6 {
        PlayerType::Human
    } else if b == 3 {
        PlayerType::RescuePassive
    } else {
        PlayerType::Unknown(b)
    }
}

/// Whether a slot takes part in the game: its controller is a human or a computer.
pub open spec fn is_active_type(t: PlayerType) -> bool {
    t == PlayerType::Human || t == PlayerType::Computer
}

/// The display name of a controller.
pub open spec fn player_type_label(t: PlayerType) -> Seq<char> {
    match t {
        PlayerType::Human => "Human"@,
        PlayerType::Computer => "Computer"@,
        PlayerType::Inactive => "Inactive"@,
        PlayerType::RescuePassive => "Rescue"@,
        PlayerType::Unknown(v) => "Unknown("@ + decimal(v as nat) + seq![')'],
    }
}

impl PlayerType {
    fn from_byte(b: u8) -> (r: PlayerType)
        ensures
            r == player_type_of(b),
    {
        match b {
            0 => PlayerType::Inactive,
            1 => PlayerType::Computer,
            2 => PlayerType::Human,
            3 => PlayerType::RescuePassive,
            5 => PlayerType::Computer,
            6 => PlayerType::Human,
            7 => PlayerType::Computer,
            _ => PlayerType::Unknown(b),
        }
    }

    /// Whether the slot is played, by a human or a computer.
    pub fn is_active(&self) -> (r: bool)
        ensures
            r == is_active_type(*self),
    {
        match self {
            PlayerType::Human | PlayerType::Computer => true,
            _ => false,
        }
    }

    /// The display name of the controller.
    pub fn label(&self) -> (r: String)
        ensures
            r@ == player_type_label(*self),
    {
        match self {
            PlayerType::Human => String::from_str("Human"),
            PlayerType::Computer => String::from_str("Computer"),
            PlayerType::Inactive => String::from_str("Inactive"),
            PlayerType::RescuePassive => String::from_str("Rescue"),
            PlayerType::Unknown(v) => {
                let mut s = String::from_str("Unknown(");
                push_decimal(&mut s, *v as u64);
                push_char(&mut s, ')');
                s
            },
        }
    }
}

/// A slot is active exactly when its controller byte is 1, 2, 5, 6 or 7: humans
/// and computers are active, while inactive, rescue and unknown slots never are.
pub proof fn active_controller_codes(b: u8)
    ensures
        is_active_type(player_type_of(b)) <==> (b == 1 || b == 2 || b == 5 || b == 6 || b == 7),
        is_active_type(PlayerType::Human),
        is_active_type(PlayerType::Computer),
        !is_active_type(PlayerType::Inactive),
        !is_active_type(PlayerType::RescuePassive),
        !is_active_type(PlayerType::Unknown(b)),
{
}

/// The game engine a replay was recorded with.
#[derive(Clone, Copy, Debug, PartialEq, Eq, Structural)]
pub enum Engine {
    StarCraft,
    BroodWar,
    Unknown(u8),
}

/// The engine coded by a header byte.
pub open spec fn engine_of(b: u8) -> Engine {
    if b == 0 {
        Engine::StarCraft
    } else if b == 1 {
        Engine::BroodWar
    } else {
        Engine::Unknown(b)
    }
}

/// The display name of an engine.
pub open spec fn engine_label(e: Engine) -> Seq<char> {
    match e {
        Engine::StarCraft => "StarCraft"@,
        Engine::BroodWar => "Brood War"@,
        Engine::Unknown(v) => "Unknown("@ + decimal(v as nat) + seq![')'],
    }
}

impl Engine {
    fn from_byte(b: u8) -> (r: Engine)
        ensures
            r == engine_of(b),
    {
        match b {
            0 => Engine::StarCraft,
            1 => Engine::BroodWar,
            _ => Engine::Unknown(b),
        }
    }

    /// The display name of the engine.
    pub fn label(&self) -> (r: String)
        ensures
            r@ == engine_label(*self),
    {
        match self {
            Engine::StarCraft => String::from_str("StarCraft"),
            Engine::BroodWar => String::from_str("Brood War"),
            Engine::Unknown(v) => {
                let mut s = String::from_str("Unknown(");
                push_decimal(&mut s, *v as u64);
                push_char(&mut s, ')');
                s
            },
        }
    }
}

/// The game speed setting.
#[derive(Clone, Copy, Debug, PartialEq, Eq, Structural)]
pub enum GameSpeed {
    Slowest,
    Slower,
    Slow,
    Normal,
    Fast,
    Faster,
    Fastest,
    Unknown(u8),
}

/// The game speed coded by a header byte.
pub open spec fn game_speed_of(b: u8) -> GameSpeed {
    if b == 0 {
        GameSpeed::Slowest
    } else if b == 1 {
        GameSpeed::Slower
    } else if b == 2 {
        GameSpeed::Slow
    } else if b == 3 {
        GameSpeed::Normal
    } else if b == 4 {
        GameSpeed::Fast
    } else if b == 5 {
        GameSpeed::Faster
    } else if b == 6 {
        GameSpeed::Fastest
    } else {
        GameSpeed::Unknown(b)
    }
}

/// The display name of a game speed.
pub open spec fn game_speed_label(g: GameSpeed) -> Seq<char> {
    match g {
        GameSpeed::Slowest => "Slowest"@,
        GameSpeed::Slower => "Slower"@,
        GameSpeed::Slow => "Slow"@,
        GameSpeed::Normal => "Normal"@,
        GameSpeed::Fast => "Fast"@,
        GameSpeed::Faster => "Faster"@,
        GameSpeed::Fastest => "Fastest"@,
        GameSpeed::Unknown(v) => "Unknown("@ + decimal(v as nat) + seq![')'],
    }
}

impl GameSpeed {
    fn from_byte(b: u8) -> (r: GameSpeed)
        ensures
            r == game_speed_of(b),
    {
        match b {
            0 => GameSpeed::Slowest,
            1 => GameSpeed::Slower,
            2 => GameSpeed::Slow,
            3 => GameSpeed::Normal,
            4 => GameSpeed::Fast,
            5 => GameSpeed::Faster,
            6 => GameSpeed::Fastest,
            _ => GameSpeed::Unknown(b),
        }
    }

    /// The display name of the game speed.
    pub fn label(&self) -> (r: String)
        ensures
            r@ == game_speed_label(*self),
    {
        match self {
            GameSpeed::Slowest => String::from_str("Slowest"),
            GameSpeed::Slower => String::from_str("Slower"),
            GameSpeed::Slow => String::from_str("Slow"),
            GameSpeed::Normal => String::from_str("Normal"),
            GameSpeed::Fast => String::from_str("Fast"),
            GameSpeed::Faster => String::from_str("Faster"),
            GameSpeed::Fastest => String::from_str("Fastest"),
            GameSpeed::Unknown(v) => {
                let mut s = String::from_str("Unknown(");
                push_decimal(&mut s, *v as u64);
                push_char(&mut s, ')');
                s
            },
        }
    }
}

/// The game type setting.
#[derive(Clone, Copy, Debug, PartialEq, Eq, Structural)]
pub enum GameType {
    Melee,
    FreeForAll,
    OneOnOne,
    CaptureTheFlag,
    Greed,
    Slaughter,
    SuddenDeath,
    Ladder,
    UseMapSettings,
    TeamMelee,
    TeamFreeForAll,
    TeamCaptureTheFlag,
    TopVsBottom,
    Unknown(u16),
}

/// The game type coded by a header value.
pub open spec fn game_type_of(v: u16) -> GameType {
    if v == 0x02 {
        GameType::Melee
    } else if v == 0x03 {
        GameType::FreeForAll
    } else if v == 0x04 {
        GameType::OneOnOne
    } else if v == 0x05 {
        GameType::CaptureTheFlag
    } else if v == 0x06 {
        GameType::Greed
    } else if v == 0x07 {
        GameType::Slaughter
    } else if v == 0x08 {
        GameType::SuddenDeath
    } else if v == 0x09 {
        GameType::Ladder
    } else if v == 0x0A {
        GameType::UseMapSettings
    } else if v == 0x0B {
        GameType::TeamMelee
    } else if v == 0x0C {
        GameType::TeamFreeForAll
    } else if v == 0x0D {
        GameType::TeamCaptureTheFlag
    } else if v == 0x0F {
        GameType::TopVsBottom
    } else {
        GameType::Unknown(v)
    }
}

/// The display name of a game type; unknown values show their code in hexadecimal.
pub open spec fn game_type_label(g: GameType) -> Seq<char> {
    match g {
        GameType::Melee => "Melee"@,
        GameType::FreeForAll => "Free For All"@,
        GameType::OneOnOne => "1on1"@,
        GameType::CaptureTheFlag => "Capture The Flag"@,
        GameType::Greed => "Greed"@,
        GameType::Slaughter => "Slaughter"@,
        GameType::SuddenDeath => "Sudden Death"@,
        GameType::Ladder => "Ladder"@,
        GameType::UseMapSettings => "Use Map Settings"@,
        GameType::TeamMelee => "Team Melee"@,
        GameType::TeamFreeForAll => "Team FFA"@,
        GameType::TeamCaptureTheFlag => "Team CTF"@,
        GameType::TopVsBottom => "Top vs Bottom"@,
        GameType::Unknown(v) => "Unknown(0x"@ + hex2(v as nat) + seq![')'],
    }
}

impl GameType {
    fn from_u16(v: u16) -> (r: GameType)
        ensures
            r == game_type_of(v),
    {
        match v {
            0x02 => GameType::Melee,
            0x03 => GameType::FreeForAll,
            0x04 => GameType::OneOnOne,
            0x05 => GameType::CaptureTheFlag,
            0x06 => GameType::Greed,
            0x07 => GameType::Slaughter,
            0x08 => GameType::SuddenDeath,
            0x09 => GameType::Ladder,
            0x0A => GameType::UseMapSettings,
            0x0B => GameType::TeamMelee,
            0x0C => GameType::TeamFreeForAll,
            0x0D => GameType::TeamCaptureTheFlag,
            0x0F => GameType::TopVsBottom,
            _ => GameType::Unknown(v),
        }
    }

    /// The display name of the game type.
    pub fn label(&self) -> (r: String)
        ensures
            r@ == game_type_label(*self),
    {
        match self {
            GameType::Melee => String::from_str("Melee"),
            GameType::FreeForAll => String::from_str("Free For All"),
            GameType::OneOnOne => String::from_str("1on1"),
            GameType::CaptureTheFlag => String::from_str("Capture The Flag"),
            GameType::Greed => String::from_str("Greed"),
            GameType::Slaughter => String::from_str("Slaughter"),
            GameType::SuddenDeath => String::from_str("Sudden Death"),
            GameType::Ladder => String::from_str("Ladder"),
            GameType::UseMapSettings => String::from_str("Use Map Settings"),
            GameType::TeamMelee => String::from_str("Team Melee"),
            GameType::TeamFreeForAll => String::from_str("Team FFA"),
            GameType::TeamCaptureTheFlag => String::from_str("Team CTF"),
            GameType::TopVsBottom => String::from_str("Top vs Bottom"),
            GameType::Unknown(v) => {
                let mut s = String::from_str("Unknown(0x");
                push_hex2(&mut s, *v as u64);
                push_char(&mut s, ')');
                s
            },
        }
    }
}


/// A player's colour.
#[derive(Clone, Copy, Debug, PartialEq, Eq, Structural)]
pub struct PlayerColor {
    pub r: u8,
    pub g: u8,
    pub b: u8,
}

/// The eight standard player colours, by colour index.
pub open spec fn bw_color(k: int) -> PlayerColor {
    if k == 0 {
        PlayerColor { r: 244, g: 4, b: 4 }
    } else if k == 1 {
        PlayerColor { r: 12, g: 72, b: 204 }
    } else if k == 2 {
        PlayerColor { r: 44, g: 180, b: 148 }
    } else if k == 3 {
        PlayerColor { r: 136, g: 64, b: 156 }
    } else if k == 4 {
        PlayerColor { r: 248, g: 140, b: 20 }
    } else if k == 5 {
        PlayerColor { r: 112, g: 48, b: 20 }
    } else if k == 6 {
        PlayerColor { r: 204, g: 224, b: 208 }
    } else {
        PlayerColor { r: 252, g: 252, b: 56 }
    }
}

/// The number of standard player colours.
pub const BW_COLOR_COUNT: usize = 8;

/// The standard player colour with index `k`.
pub fn bw_color_at(k: usize) -> (c: PlayerColor)
    requires
        k < BW_COLOR_COUNT,
    ensures
        c == bw_color(k as int),
{
    match k {
        0 => PlayerColor { r: 244, g: 4, b: 4 },
        1 => PlayerColor { r: 12, g: 72, b: 204 },
        2 => PlayerColor { r: 44, g: 180, b: 148 },
        3 => PlayerColor { r: 136, g: 64, b: 156 },
        4 => PlayerColor { r: 248, g: 140, b: 20 },
        5 => PlayerColor { r: 112, g: 48, b: 20 },
        6 => PlayerColor { r: 204, g: 224, b: 208 },
        _ => PlayerColor { r: 252, g: 252, b: 56 },
    }
}

/// A player taking part in a replay.
#[derive(Clone, Debug)]
pub struct Player {
    pub slot_id: u16,
    pub player_id: u8,
    pub player_type: PlayerType,
    pub race: Race,
    pub team: u8,
    pub name: String,
    pub color: PlayerColor,
}

/// The abstract value of a [`Player`].
pub struct PlayerView {
    pub slot_id: u16,
    pub player_id: u8,
    pub player_type: PlayerType,
    pub race: Race,
    pub team: u8,
    pub name: Seq<char>,
    pub color: PlayerColor,
}

impl View for Player {
    type V = PlayerView;

    open spec fn view(&self) -> PlayerView {
        PlayerView {
            slot_id: self.slot_id,
            player_id: self.player_id,
            player_type: self.player_type,
            race: self.race,
            team: self.team,
            name: self.name@,
            color: self.color,
        }
    }
}

/// The abstract values of a sequence of players.
pub open spec fn players_view(ps: Seq<Player>) -> Seq<PlayerView> {
    ps.map_values(|p: Player| p@)
}

/// A parsed replay: the header's game settings, the active players, the
/// matchup and the command stream.  The game's length is `frames` (at 23.81
/// frames per second on the fastest speed).
#[derive(Clone, Debug)]
pub struct Replay {
    pub engine: Engine,
    pub frames: u32,
    pub timestamp: i64,
    pub title: String,
    pub map_width: u16,
    pub map_height: u16,
    pub map_name: String,
    pub host_name: String,
    pub game_speed: GameSpeed,
    pub game_type: GameType,
    pub players: Vec<Player>,
    pub matchup: String,
    pub commands: Vec<Command>,
}

/// The abstract value of a [`Replay`].
pub struct ReplayView {
    pub engine: Engine,
    pub frames: u32,
    pub timestamp: i64,
    pub title: Seq<char>,
    pub map_width: u16,
    pub map_height: u16,
    pub map_name: Seq<char>,
    pub host_name: Seq<char>,
    pub game_speed: GameSpeed,
    pub game_type: GameType,
    pub players: Seq<PlayerView>,
    pub matchup: Seq<char>,
    pub commands: Seq<Command>,
}

impl View for Replay {
    type V = ReplayView;

    open spec fn view(&self) -> ReplayView {
        ReplayView {
            engine: self.engine,
            frames: self.frames,
            timestamp: self.timestamp,
            title: self.title@,
            map_width: self.map_width,
            map_height: self.map_height,
            map_name: self.map_name@,
            host_name: self.host_name@,
            game_speed: self.game_speed,
            game_type: self.game_type,
            players: players_view(self.players@),
            matchup: self.matchup@,
            commands: self.commands@,
        }
    }
}


/// Why a replay could not be read.
#[derive(Clone, Copy, Debug, PartialEq, Eq, Structural)]
pub enum ReplayError {
    /// Fewer than four bytes.
    TooSmall,
    /// A section could not be read: 0 is the replay id, 1 the header, 2 the
    /// command stream's size and 3 the command stream.
    Section { section: u8, error: SectionError },
    /// The replay id is neither `seRS` nor `reRS`.
    BadSignature { b0: u8, b1: u8, b2: u8, b3: u8 },
}

/// The replay id of replays written by the 1.21+ (remastered) engine.
pub open spec fn modern_signature() -> Seq<u8> {
    seq![0x73u8, 0x65u8, 0x52u8, 0x53u8]
}

/// The replay id of replays written by earlier engines.
pub open spec fn legacy_signature() -> Seq<u8> {
    seq![0x72u8, 0x65u8, 0x52u8, 0x53u8]
}

/// The decompressed header and command stream of a replay file.  The file is
/// section 0 (the 4-byte replay id), then, for the modern id only, a 4-byte
/// offset, then section 1 (the header), section 2 (the command stream's length,
/// a `u32`) and section 3 (the command stream).
pub open spec fn raw_sections(s: Seq<u8>) -> Result<(Seq<u8>, Seq<u8>), ReplayError> {
    if s.len() < 4 {
        Err(ReplayError::TooSmall)
    } else {
        match read_section(s, 0, 4) {
            Err(e) => Err(ReplayError::Section { section: 0, error: e }),
            Ok((id, p0)) => if id != modern_signature() && id != legacy_signature() {
                Err(ReplayError::BadSignature { b0: id[0], b1: id[1], b2: id[2], b3: id[3] })
            } else {
                let p1 = if id == modern_signature() {
                    p0 + 4
                } else {
                    p0
                };
                match read_section(s, p1, HEADER_SIZE as int) {
                    Err(e) => Err(ReplayError::Section { section: 1, error: e }),
                    Ok((header, p2)) => match read_section(s, p2, 4) {
                        Err(e) => Err(ReplayError::Section { section: 2, error: e }),
                        Ok((size, p3)) => match read_section(s, p3, le32(size, 0) as int) {
                            Err(e) => Err(ReplayError::Section { section: 3, error: e }),
                            Ok((commands, _)) => Ok((header, commands)),
                        },
                    },
                }
            },
        }
    }
}

/// The replay a file describes: its header's settings and players, and the
/// commands of its command stream.
pub open spec fn replay_of(s: Seq<u8>) -> Result<ReplayView, ReplayError> {
    match raw_sections(s) {
        Err(e) => Err(e),
        Ok((h, c)) => Ok(ReplayView { commands: parse_command_stream(c), ..header_replay(h) }),
    }
}

/// The message shown for a replay error.
pub open spec fn error_message(e: ReplayError) -> Seq<char> {
    match e {
        ReplayError::TooSmall => "File too small to be a replay"@,
        ReplayError::Section { section, error } => match error {
            SectionError::Truncated => "File truncated in section "@ + decimal(section as nat),
            SectionError::Decompress => "zlib decompress failed in section "@ + decimal(
                section as nat,
            ),
            SectionError::SizeMismatch => "Wrong data size in section "@ + decimal(
                section as nat,
            ),
        },
        ReplayError::BadSignature { b0, b1, b2, b3 } => "Invalid replay signature: "@ + hex2(
            b0 as nat,
        ) + seq![' '] + hex2(b1 as nat) + seq![' '] + hex2(b2 as nat) + seq![' '] + hex2(
            b3 as nat,
        ) + " (expected 'seRS' or 'reRS')"@,
    }
}

impl ReplayError {
    /// The message shown for the error.
    pub fn message(&self) -> (r: String)
        ensures
            r@ == error_message(*self),
    {
        match self {
            ReplayError::TooSmall => String::from_str("File too small to be a replay"),
            ReplayError::Section { section, error } => {
                let mut s = match error {
                    SectionError::Truncated => String::from_str("File truncated in section "),
                    SectionError::Decompress => String::from_str(
                        "zlib decompress failed in section ",
                    ),
                    SectionError::SizeMismatch => String::from_str("Wrong data size in section "),
                };
                push_decimal(&mut s, *section as u64);
                s
            },
            ReplayError::BadSignature { b0, b1, b2, b3 } => {
                let mut s = String::from_str("Invalid replay signature: ");
                push_hex2(&mut s, *b0 as u64);
                push_char(&mut s, ' ');
                push_hex2(&mut s, *b1 as u64);
                push_char(&mut s, ' ');
                push_hex2(&mut s, *b2 as u64);
                push_char(&mut s, ' ');
                push_hex2(&mut s, *b3 as u64);
                push_str(&mut s, " (expected 'seRS' or 'reRS')");
                s
            },
        }
    }
}

/// Reads the decompressed header and command stream of a replay file.
pub fn read_raw_sections(data: &[u8]) -> (r: Result<(Vec<u8>, Vec<u8>), ReplayError>)
    ensures
        match r {
            Ok((h, c)) => raw_sections(data@) == Ok::<(Seq<u8>, Seq<u8>), ReplayError>(
                (h@, c@),
            ) && h@.len() == HEADER_SIZE,
            Err(e) => raw_sections(data@) == Err::<(Seq<u8>, Seq<u8>), ReplayError>(e),
        },
{
    if data.len() < 4 {
        return Err(ReplayError::TooSmall);
    }
    let (id, p0) = match read_section_at(data, 0, 4) {
        Ok(x) => x,
        Err(e) => {
            return Err(ReplayError::Section { section: 0, error: e });
        },
    };
    let modern = id[0] == 0x73 && id[1] == 0x65 && id[2] == 0x52 && id[3] == 0x53;
    let legacy = id[0] == 0x72 && id[1] == 0x65 && id[2] == 0x52 && id[3] == 0x53;
    assert(modern == (id@ == modern_signature())) by {
        if modern {
            assert(id@ =~= modern_signature());
        }
    }
    assert(legacy == (id@ == legacy_signature())) by {
        if legacy {
            assert(id@ =~= legacy_signature());
        }
    }
    if !modern && !legacy {
        return Err(ReplayError::BadSignature { b0: id[0], b1: id[1], b2: id[2], b3: id[3] });
    }
    let p1 = if modern {
        if p0 > data.len() {
            return Err(ReplayError::Section { section: 1, error: SectionError::Truncated });
        }
        if data.len() - p0 < 4 {
            return Err(ReplayError::Section { section: 1, error: SectionError::Truncated });
        }
        p0 + 4
    } else {
        p0
    };
    let (header, p2) = match read_section_at(data, p1, HEADER_SIZE) {
        Ok(x) => x,
        Err(e) => {
            return Err(ReplayError::Section { section: 1, error: e });
        },
    };
    let (size, p3) = match read_section_at(data, p2, 4) {
        Ok(x) => x,
        Err(e) => {
            return Err(ReplayError::Section { section: 2, error: e });
        },
    };
    let cmd_len = read_u32_le(size.as_slice(), 0) as usize;
    let (commands, _) = match read_section_at(data, p3, cmd_len) {
        Ok(x) => x,
        Err(e) => {
            return Err(ReplayError::Section { section: 3, error: e });
        },
    };
    Ok((header, commands))
}

/// Extracts the raw decompressed header and command stream of a replay file, as
/// handed to the simulator.
pub fn extract_raw_sections(data: &[u8]) -> (r: Result<(Vec<u8>, Vec<u8>), String>)
    ensures
        match r {
            Ok((h, c)) => raw_sections(data@) == Ok::<(Seq<u8>, Seq<u8>), ReplayError>(
                (h@, c@),
            ),
            Err(m) => exists|e: ReplayError|
                raw_sections(data@) == Err::<(Seq<u8>, Seq<u8>), ReplayError>(e) && m@
                    == error_message(e),
        },
{
    match read_raw_sections(data) {
        Ok(x) => Ok(x),
        Err(e) => Err(e.message()),
    }
}

/// Parses a replay file, reporting the reason when it cannot be read.
pub fn parse_replay_checked(data: &[u8]) -> (r: Result<Replay, ReplayError>)
    ensures
        match r {
            Ok(replay) => replay_of(data@) == Ok::<ReplayView, ReplayError>(replay@),
            Err(e) => replay_of(data@) == Err::<ReplayView, ReplayError>(e),
        },
{
    let (header, commands) = match read_raw_sections(data) {
        Ok(x) => x,
        Err(e) => {
            return Err(e);
        },
    };
    let mut replay = parse_header(header.as_slice());
    replay.commands = parse_commands(commands.as_slice());
    Ok(replay)
}

/// Parses a replay file; the error is the message of the reason it cannot be read.
pub fn parse_replay(data: &[u8]) -> (r: Result<Replay, String>)
    ensures
        match r {
            Ok(replay) => replay_of(data@) == Ok::<ReplayView, ReplayError>(replay@),
            Err(m) => exists|e: ReplayError|
                replay_of(data@) == Err::<ReplayView, ReplayError>(e) && m@ == error_message(e),
        },
{
    match parse_replay_checked(data) {
        Ok(replay) => Ok(replay),
        Err(e) => Err(e.message()),
    }
}

} // verus!
