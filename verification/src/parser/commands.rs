//! The command stream (section 2 of a replay).
//!
//! The stream is a sequence of frame blocks: a little-endian `u32` frame number,
//! a `u8` block length, then that many bytes holding commands, each a player id
//! byte, a command code byte and the code's parameters.
use super::{CmdType, Command, HotkeyAction};
use crate::bytes::{le16, le32, read_u16_le, read_u32_le};
use vstd::prelude::*;

verus! {

/// The hotkey action coded by a parameter byte.
pub open spec fn hotkey_action(b: u8) -> HotkeyAction {
    if b == 0 {
        HotkeyAction::Assign
    } else if b == 1 {
        HotkeyAction::Select
    } else if b == 2 {
        HotkeyAction::Add
    } else {
        HotkeyAction::Unknown(b)
    }
}

/// The number of parameter bytes that follow command code `id` whose parameters
/// start at `p` in a block that ends at `end`; `None` for codes whose length is
/// not known.  Selections carry a count byte followed by that many unit tags
/// (two bytes each, four bytes in the 1.21 forms).
pub open spec fn param_len(s: Seq<u8>, id: u8, p: int, end: int) -> Option<int> {
    let count: int = if p < end {
        s[p] as int
    } else {
        0
    };
    if id == 0x09 || id == 0x0A || id == 0x0B {
        Some(1 + 2 * count)
    } else if id == 0x63 || id == 0x64 || id == 0x65 {
        Some(1 + 4 * count)
    } else if id == 0x05 || id == 0x08 || id == 0x10 || id == 0x11 || id == 0x18 || id == 0x19
        || id == 0x1B || id == 0x1C || id == 0x1D || id == 0x27 || id == 0x2A || id == 0x2E
        || id == 0x31 || id == 0x33 || id == 0x34 || id == 0x36 || id == 0x38 || id == 0x39
        || id == 0x3C || id == 0x54 || id == 0x5A || id == 0x5B {
        Some(0)
    } else if id == 0x0F || id == 0x1A || id == 0x1E || id == 0x21 || id == 0x22 || id == 0x25
        || id == 0x26 || id == 0x28 || id == 0x2B || id == 0x2C || id == 0x2D || id == 0x30
        || id == 0x32 || id == 0x3A || id == 0x3B || id == 0x3D || id == 0x42 || id == 0x43
        || id == 0x55 || id == 0x57 {
        Some(1)
    } else if id == 0x0D || id == 0x13 || id == 0x1F || id == 0x20 || id == 0x23 || id == 0x29
        || id == 0x35 || id == 0x41 || id == 0x44 || id == 0x45 {
        Some(2)
    } else if id == 0x0E || id == 0x12 || id == 0x2F || id == 0x58 || id == 0x62 {
        Some(4)
    } else if id == 0x3E {
        Some(5)
    } else if id == 0x37 {
        Some(6)
    } else if id == 0x0C || id == 0x3F {
        Some(7)
    } else if id == 0x14 || id == 0x56 {
        Some(9)
    } else if id == 0x15 {
        Some(10)
    } else if id == 0x60 {
        Some(11)
    } else if id == 0x61 || id == 0x48 {
        Some(12)
    } else if id == 0x40 {
        Some(17)
    } else if id == 0x5C {
        Some(81)
    } else {
        None
    }
}

/// The command coded by `id` whose parameters start at `p`.
pub open spec fn decode(s: Seq<u8>, id: u8, p: int) -> CmdType {
    if id == 0x05 {
        CmdType::KeepAlive
    } else if id == 0x09 || id == 0x63 {
        CmdType::Select { count: s[p] }
    } else if id == 0x0A || id == 0x64 {
        CmdType::ShiftSelect { count: s[p] }
    } else if id == 0x0B || id == 0x65 {
        CmdType::ShiftDeselect { count: s[p] }
    } else if id == 0x0C {
        CmdType::Build {
            order_id: s[p],
            x: le16(s, p + 1),
            y: le16(s, p + 3),
            unit_id: le16(s, p + 5),
        }
    } else if id == 0x13 {
        CmdType::Hotkey { hotkey_type: hotkey_action(s[p]), group: s[p + 1] }
    } else if id == 0x14 {
        CmdType::RightClick {
            x: le16(s, p),
            y: le16(s, p + 2),
            target: le16(s, p + 4),
            unit_id: le16(s, p + 6),
            queued: s[p + 8] != 0,
        }
    } else if id == 0x60 {
        CmdType::RightClick {
            x: le16(s, p),
            y: le16(s, p + 2),
            target: le16(s, p + 4),
            unit_id: le16(s, p + 8),
            queued: s[p + 10] != 0,
        }
    } else if id == 0x15 {
        CmdType::TargetedOrder {
            x: le16(s, p),
            y: le16(s, p + 2),
            target: le16(s, p + 4),
            unit_id: le16(s, p + 6),
            order_id: s[p + 8],
            queued: s[p + 9] != 0,
        }
    } else if id == 0x61 {
        CmdType::TargetedOrder {
            x: le16(s, p),
            y: le16(s, p + 2),
            target: le16(s, p + 4),
            unit_id: le16(s, p + 8),
            order_id: s[p + 10],
            queued: s[p + 11] != 0,
        }
    } else if id == 0x18 {
        CmdType::CancelBuild
    } else if id == 0x19 {
        CmdType::CancelMorph
    } else if id == 0x1A {
        CmdType::Stop
    } else if id == 0x1B {
        CmdType::CarrierStop
    } else if id == 0x1C {
        CmdType::ReaverStop
    } else if id == 0x1E {
        CmdType::ReturnCargo
    } else if id == 0x1F {
        CmdType::Train { unit_id: le16(s, p) }
    } else if id == 0x20 {
        CmdType::CancelTrain
    } else if id == 0x21 {
        CmdType::Cloak
    } else if id == 0x22 {
        CmdType::Decloak
    } else if id == 0x23 {
        CmdType::UnitMorph { unit_id: le16(s, p) }
    } else if id == 0x25 {
        CmdType::Unsiege
    } else if id == 0x26 {
        CmdType::Siege
    } else if id == 0x27 {
        CmdType::TrainFighter
    } else if id == 0x28 {
        CmdType::UnloadAll
    } else if id == 0x29 || id == 0x62 {
        CmdType::Unload { unit_tag: le16(s, p) }
    } else if id == 0x2A {
        CmdType::MergeArchon
    } else if id == 0x2B {
        CmdType::HoldPosition
    } else if id == 0x2C {
        CmdType::Burrow
    } else if id == 0x2D {
        CmdType::Unburrow
    } else if id == 0x2E {
        CmdType::CancelNuke
    } else if id == 0x2F {
        CmdType::LiftOff { x: le16(s, p), y: le16(s, p + 2) }
    } else if id == 0x30 {
        CmdType::Tech { tech_id: s[p] }
    } else if id == 0x31 {
        CmdType::CancelTech
    } else if id == 0x32 {
        CmdType::Upgrade { upgrade_id: s[p] }
    } else if id == 0x33 {
        CmdType::CancelUpgrade
    } else if id == 0x34 {
        CmdType::CancelAddon
    } else if id == 0x35 {
        CmdType::BuildingMorph { unit_id: le16(s, p) }
    } else if id == 0x36 {
        CmdType::Stim
    } else if id == 0x57 {
        CmdType::LeaveGame { reason: s[p] }
    } else if id == 0x58 {
        CmdType::MinimapPing { x: le16(s, p), y: le16(s, p + 2) }
    } else if id == 0x5A {
        CmdType::MergeDarkArchon
    } else if id == 0x5C {
        CmdType::Chat { sender: s[p] }
    } else {
        CmdType::Other { cmd_id: id }
    }
}

/// The commands of the frame block `s[p..end]` issued on `frame`.  A command with
/// an unknown code is kept as `Other` and ends the block (its length is unknown);
/// a command whose parameters run past the block's end is dropped.
pub open spec fn block_commands(s: Seq<u8>, frame: u32, p: int, end: int) -> Seq<Command>
    decreases end - p,
{
    if p + 2 > end {
        seq![]
    } else {
        let player_id = s[p];
        let id = s[p + 1];
        match param_len(s, id, p + 2, end) {
            None => seq![Command { frame, player_id, cmd: CmdType::Other { cmd_id: id } }],
            Some(n) => if p + 2 + n > end {
                seq![]
            } else {
                seq![Command { frame, player_id, cmd: decode(s, id, p + 2) }] + block_commands(
                    s,
                    frame,
                    p + 2 + n,
                    end,
                )
            },
        }
    }
}

/// The commands of the frame blocks of `s` from offset `pos` on.  A block that
/// runs past the end of `s` ends the stream.
pub open spec fn stream_commands(s: Seq<u8>, pos: int) -> Seq<Command>
    decreases s.len() - pos,
{
    if pos < 0 || pos + 5 > s.len() {
        seq![]
    } else {
        let end = pos + 5 + s[pos + 4] as int;
        if end > s.len() {
            seq![]
        } else {
            block_commands(s, le32(s, pos), pos + 5, end) + stream_commands(s, end)
        }
    }
}

/// The commands of a whole command stream.
pub open spec fn parse_command_stream(s: Seq<u8>) -> Seq<Command> {
    stream_commands(s, 0)
}

fn hotkey_action_of(b: u8) -> (r: HotkeyAction)
    ensures
        r == hotkey_action(b),
{
    if b == 0 {
        HotkeyAction::Assign
    } else if b == 1 {
        HotkeyAction::Select
    } else if b == 2 {
        HotkeyAction::Add
    } else {
        HotkeyAction::Unknown(b)
    }
}

fn param_len_of(data: &[u8], id: u8, p: usize, end: usize) -> (r: Option<usize>)
    requires
        p <= end <= data@.len(),
    ensures
        match r {
            Some(n) => param_len(data@, id, p as int, end as int) == Some(n as int),
            None => param_len(data@, id, p as int, end as int) is None,
        },
{
    let count: usize = if p < end {
        data[p] as usize
    } else {
        0
    };
    if id == 0x09 || id == 0x0A || id == 0x0B {
        Some(1 + 2 * count)
    } else if id == 0x63 || id == 0x64 || id == 0x65 {
        Some(1 + 4 * count)
    } else if id == 0x05 || id == 0x08 || id == 0x10 || id == 0x11 || id == 0x18 || id == 0x19
        || id == 0x1B || id == 0x1C || id == 0x1D || id == 0x27 || id == 0x2A || id == 0x2E
        || id == 0x31 || id == 0x33 || id == 0x34 || id == 0x36 || id == 0x38 || id == 0x39
        || id == 0x3C || id == 0x54 || id == 0x5A || id == 0x5B {
        Some(0)
    } else if id == 0x0F || id == 0x1A || id == 0x1E || id == 0x21 || id == 0x22 || id == 0x25
        || id == 0x26 || id == 0x28 || id == 0x2B || id == 0x2C || id == 0x2D || id == 0x30
        || id == 0x32 || id == 0x3A || id == 0x3B || id == 0x3D || id == 0x42 || id == 0x43
        || id == 0x55 || id == 0x57 {
        Some(1)
    } else if id == 0x0D || id == 0x13 || id == 0x1F || id == 0x20 || id == 0x23 || id == 0x29
        || id == 0x35 || id == 0x41 || id == 0x44 || id == 0x45 {
        Some(2)
    } else if id == 0x0E || id == 0x12 || id == 0x2F || id == 0x58 || id == 0x62 {
        Some(4)
    } else if id == 0x3E {
        Some(5)
    } else if id == 0x37 {
        Some(6)
    } else if id == 0x0C || id == 0x3F {
        Some(7)
    } else if id == 0x14 || id == 0x56 {
        Some(9)
    } else if id == 0x15 {
        Some(10)
    } else if id == 0x60 {
        Some(11)
    } else if id == 0x61 || id == 0x48 {
        Some(12)
    } else if id == 0x40 {
        Some(17)
    } else if id == 0x5C {
        Some(81)
    } else {
        None
    }
}

fn decode_at(data: &[u8], id: u8, p: usize, end: usize, n: usize) -> (r: CmdType)
    requires
        p + n <= end <= data@.len(),
        param_len(data@, id, p as int, end as int) == Some(n as int),
    ensures
        r == decode(data@, id, p as int),
{
    if id == 0x05 {
        CmdType::KeepAlive
    } else if id == 0x09 || id == 0x63 {
        CmdType::Select { count: data[p] }
    } else if id == 0x0A || id == 0x64 {
        CmdType::ShiftSelect { count: data[p] }
    } else if id == 0x0B || id == 0x65 {
        CmdType::ShiftDeselect { count: data[p] }
    } else if id == 0x0C {
        CmdType::Build {
            order_id: data[p],
            x: read_u16_le(data, p + 1),
            y: read_u16_le(data, p + 3),
            unit_id: read_u16_le(data, p + 5),
        }
    } else if id == 0x13 {
        CmdType::Hotkey { hotkey_type: hotkey_action_of(data[p]), group: data[p + 1] }
    } else if id == 0x14 {
        CmdType::RightClick {
            x: read_u16_le(data, p),
            y: read_u16_le(data, p + 2),
            target: read_u16_le(data, p + 4),
            unit_id: read_u16_le(data, p + 6),
            queued: data[p + 8] != 0,
        }
    } else if id == 0x60 {
        CmdType::RightClick {
            x: read_u16_le(data, p),
            y: read_u16_le(data, p + 2),
            target: read_u16_le(data, p + 4),
            unit_id: read_u16_le(data, p + 8),
            queued: data[p + 10] != 0,
        }
    } else if id == 0x15 {
        CmdType::TargetedOrder {
            x: read_u16_le(data, p),
            y: read_u16_le(data, p + 2),
            target: read_u16_le(data, p + 4),
            unit_id: read_u16_le(data, p + 6),
            order_id: data[p + 8],
            queued: data[p + 9] != 0,
        }
    } else if id == 0x61 {
        CmdType::TargetedOrder {
            x: read_u16_le(data, p),
            y: read_u16_le(data, p + 2),
            target: read_u16_le(data, p + 4),
            unit_id: read_u16_le(data, p + 8),
            order_id: data[p + 10],
            queued: data[p + 11] != 0,
        }
    } else if id == 0x18 {
        CmdType::CancelBuild
    } else if id == 0x19 {
        CmdType::CancelMorph
    } else if id == 0x1A {
        CmdType::Stop
    } else if id == 0x1B {
        CmdType::CarrierStop
    } else if id == 0x1C {
        CmdType::ReaverStop
    } else if id == 0x1E {
        CmdType::ReturnCargo
    } else if id == 0x1F {
        CmdType::Train { unit_id: read_u16_le(data, p) }
    } else if id == 0x20 {
        CmdType::CancelTrain
    } else if id == 0x21 {
        CmdType::Cloak
    } else if id == 0x22 {
        CmdType::Decloak
    } else if id == 0x23 {
        CmdType::UnitMorph { unit_id: read_u16_le(data, p) }
    } else if id == 0x25 {
        CmdType::Unsiege
    } else if id == 0x26 {
        CmdType::Siege
    } else if id == 0x27 {
        CmdType::TrainFighter
    } else if id == 0x28 {
        CmdType::UnloadAll
    } else if id == 0x29 || id == 0x62 {
        CmdType::Unload { unit_tag: read_u16_le(data, p) }
    } else if id == 0x2A {
        CmdType::MergeArchon
    } else if id == 0x2B {
        CmdType::HoldPosition
    } else if id == 0x2C {
        CmdType::Burrow
    } else if id == 0x2D {
        CmdType::Unburrow
    } else if id == 0x2E {
        CmdType::CancelNuke
    } else if id == 0x2F {
        CmdType::LiftOff { x: read_u16_le(data, p), y: read_u16_le(data, p + 2) }
    } else if id == 0x30 {
        CmdType::Tech { tech_id: data[p] }
    } else if id == 0x31 {
        CmdType::CancelTech
    } else if id == 0x32 {
        CmdType::Upgrade { upgrade_id: data[p] }
    } else if id == 0x33 {
        CmdType::CancelUpgrade
    } else if id == 0x34 {
        CmdType::CancelAddon
    } else if id == 0x35 {
        CmdType::BuildingMorph { unit_id: read_u16_le(data, p) }
    } else if id == 0x36 {
        CmdType::Stim
    } else if id == 0x57 {
        CmdType::LeaveGame { reason: data[p] }
    } else if id == 0x58 {
        CmdType::MinimapPing { x: read_u16_le(data, p), y: read_u16_le(data, p + 2) }
    } else if id == 0x5A {
        CmdType::MergeDarkArchon
    } else if id == 0x5C {
        CmdType::Chat { sender: data[p] }
    } else {
        CmdType::Other { cmd_id: id }
    }
}

/// Decodes a whole command stream into its commands, in stream order.
pub fn parse_commands(data: &[u8]) -> (r: Vec<Command>)
    ensures
        r@ == parse_command_stream(data@),
{
    let len = data.len();
    let ghost s = data@;
    let mut out: Vec<Command> = Vec::new();
    let mut pos: usize = 0;
    while len - pos >= 5
        invariant
            len == s.len(),
            s == data@,
            pos <= len,
            out@ + stream_commands(s, pos as int) == stream_commands(s, 0),
        decreases len - pos,
    {
        let frame = read_u32_le(data, pos);
        let size = data[pos + 4] as usize;
        if size > len - pos - 5 {
            assert(stream_commands(s, pos as int) == Seq::<Command>::empty());
            assert(stream_commands(s, len as int) == Seq::<Command>::empty());
            pos = len;
        } else {
            let end = pos + 5 + size;
            let ghost before = out@;
            let mut p: usize = pos + 5;
            assert(stream_commands(s, pos as int) == block_commands(s, frame, p as int, end as int)
                + stream_commands(s, end as int));
            while end - p >= 2
                invariant
                    len == s.len(),
                    s == data@,
                    pos + 5 <= p <= end <= len,
                    frame == le32(s, pos as int),
                    out@ + block_commands(s, frame, p as int, end as int) == before
                        + block_commands(s, frame, (pos + 5) as int, end as int),
                decreases end - p,
            {
                let player_id = data[p];
                let id = data[p + 1];
                match param_len_of(data, id, p + 2, end) {
                    None => {
                        let c = Command { frame, player_id, cmd: CmdType::Other { cmd_id: id } };
                        assert(block_commands(s, frame, p as int, end as int) == seq![c]);
                        assert(block_commands(s, frame, end as int, end as int)
                            == Seq::<Command>::empty());
                        out.push(c);
                        p = end;
                    },
                    Some(n) => {
                        if n > end - p - 2 {
                            assert(block_commands(s, frame, p as int, end as int)
                                == Seq::<Command>::empty());
                            assert(block_commands(s, frame, end as int, end as int)
                                == Seq::<Command>::empty());
                            p = end;
                        } else {
                            let cmd = decode_at(data, id, p + 2, end, n);
                            let c = Command { frame, player_id, cmd };
                            let ghost old_out = out@;
                            assert(block_commands(s, frame, p as int, end as int) == seq![c]
                                + block_commands(s, frame, (p + 2 + n) as int, end as int));
                            out.push(c);
                            assert(out@ + block_commands(s, frame, (p + 2 + n) as int, end as int)
                                =~= old_out + block_commands(s, frame, p as int, end as int));
                            p = p + 2 + n;
                        }
                    },
                }
            }
            assert(block_commands(s, frame, p as int, end as int) == Seq::<Command>::empty());
            assert(out@ + stream_commands(s, end as int) =~= before + stream_commands(
                s,
                pos as int,
            ));
            pos = end;
        }
    }
    assert(stream_commands(s, pos as int) == Seq::<Command>::empty());
    assert(out@ =~= out@ + stream_commands(s, pos as int));
    out
}

} // verus!
