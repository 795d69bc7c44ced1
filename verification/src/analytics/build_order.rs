//! The build order: the buildings, units and morphs a player ordered, in order.
use crate::parser::costs::{is_worker, is_worker_unit};
use crate::parser::units::{is_known_unit, unit_label, unit_name, unit_name_of};
use crate::parser::{CmdType, Command, Race};
use crate::text::{decimal, decimal2, push_char, push_decimal, push_decimal2};
use std::collections::HashMap;
use vstd::prelude::*;

verus! {

broadcast use vstd::std_specs::hash::group_hash_axioms;

/// Commands for the same unit within this many frames of the last one accepted
/// are collapsed (about one second): this filters hotkey spam while keeping
/// intentional queues.
pub const BUILD_ORDER_DEDUP_FRAMES: u32 = 24;

/// One build order step.
#[derive(Clone, Debug)]
pub struct BuildOrderEntry {
    pub frame: u32,
    /// The game time of `frame`, as `M:SS`.
    pub time_str: String,
    pub unit_name: String,
    pub unit_id: u16,
}

/// The abstract value of a [`BuildOrderEntry`].
pub struct BuildOrderEntryView {
    pub frame: u32,
    pub time_str: Seq<char>,
    pub unit_name: Seq<char>,
    pub unit_id: u16,
}

impl View for BuildOrderEntry {
    type V = BuildOrderEntryView;

    open spec fn view(&self) -> BuildOrderEntryView {
        BuildOrderEntryView {
            frame: self.frame,
            time_str: self.time_str@,
            unit_name: self.unit_name@,
            unit_id: self.unit_id,
        }
    }
}

/// The whole seconds of game time elapsed at `frame`.
pub open spec fn frame_seconds(frame: u32) -> nat {
    (frame * 100 / 2381) as nat
}

/// A duration in whole seconds as `M:SS`.
pub open spec fn clock_text(secs: nat) -> Seq<char> {
    decimal(secs / 60) + seq![':'] + decimal2(secs % 60)
}

/// The unit a command builds, trains or morphs into, if any.
pub open spec fn produced_unit(cmd: CmdType) -> Option<u16> {
    match cmd {
        CmdType::Build { unit_id, .. } => Some(unit_id),
        CmdType::Train { unit_id } => Some(unit_id),
        CmdType::UnitMorph { unit_id } => Some(unit_id),
        CmdType::BuildingMorph { unit_id } => Some(unit_id),
        _ => None,
    }
}

/// The build order entry for `unit_id` ordered on `frame`.
pub open spec fn entry_of(frame: u32, unit_id: u16) -> BuildOrderEntryView {
    BuildOrderEntryView {
        frame,
        time_str: clock_text(frame_seconds(frame)),
        unit_name: unit_name_of(unit_id),
        unit_id,
    }
}

/// The state of the build order scan: the frame each unit type was last
/// accepted on, and the entries so far.
pub struct BuildOrderState {
    pub last: Map<u16, u32>,
    pub entries: Seq<BuildOrderEntryView>,
}

/// One scan step.  Commands of other players, commands that produce nothing and
/// unknown unit types are skipped; so is a unit type accepted fewer than
/// `BUILD_ORDER_DEDUP_FRAMES` frames before (a command on an earlier frame counts
/// as zero frames later).  An accepted unit type records its frame, and becomes
/// an entry unless it is a worker.
pub open spec fn build_order_step(st: BuildOrderState, c: Command, player_id: u8) -> BuildOrderState {
    if c.player_id != player_id {
        st
    } else {
        match produced_unit(c.cmd) {
            None => st,
            Some(uid) => if unit_label(uid) is None {
                st
            } else if st.last.contains_key(uid) && (if c.frame >= st.last[uid] {
                c.frame - st.last[uid]
            } else {
                0
            }) < BUILD_ORDER_DEDUP_FRAMES {
                st
            } else if is_worker_unit(uid) {
                BuildOrderState { last: st.last.insert(uid, c.frame), entries: st.entries }
            } else {
                BuildOrderState {
                    last: st.last.insert(uid, c.frame),
                    entries: st.entries.push(entry_of(c.frame, uid)),
                }
            },
        }
    }
}

/// The scan state after the commands `cmds`.
pub open spec fn build_order_scan(cmds: Seq<Command>, player_id: u8) -> BuildOrderState
    decreases cmds.len(),
{
    if cmds.len() == 0 {
        BuildOrderState { last: Map::empty(), entries: seq![] }
    } else {
        build_order_step(build_order_scan(cmds.drop_last(), player_id), cmds.last(), player_id)
    }
}

/// The build order of a player.
pub open spec fn build_order_of(cmds: Seq<Command>, player_id: u8) -> Seq<BuildOrderEntryView> {
    build_order_scan(cmds, player_id).entries
}

/// Formats a duration in whole seconds as `M:SS`.
pub fn format_clock(secs: u64) -> (r: String)
    ensures
        r@ == clock_text(secs as nat),
{
    let mut s = String::new();
    push_decimal(&mut s, secs / 60);
    push_char(&mut s, ':');
    push_decimal2(&mut s, secs % 60);
    s
}

fn produced_unit_of(cmd: &CmdType) -> (r: Option<u16>)
    ensures
        r == produced_unit(*cmd),
{
    match cmd {
        CmdType::Build { unit_id, .. } => Some(*unit_id),
        CmdType::Train { unit_id } => Some(*unit_id),
        CmdType::UnitMorph { unit_id } => Some(*unit_id),
        CmdType::BuildingMorph { unit_id } => Some(*unit_id),
        _ => None,
    }
}

/// Extracts a player's build order: the buildings, units and morphs they
/// ordered, without workers and without repeats of the same unit within
/// `BUILD_ORDER_DEDUP_FRAMES` frames.
pub fn extract_build_order(commands: &[Command], player_id: u8, _race: &Race) -> (r: Vec<
    BuildOrderEntry,
>)
    ensures
        r@.map_values(|e: BuildOrderEntry| e@) == build_order_of(commands@, player_id),
{
    let mut entries: Vec<BuildOrderEntry> = Vec::new();
    let mut last_frame_for_unit: HashMap<u16, u32> = HashMap::new();
    let mut i: usize = 0;
    while i < commands.len()
        invariant
            i <= commands@.len(),
            last_frame_for_unit@ == build_order_scan(commands@.take(i as int), player_id).last,
            entries@.map_values(|e: BuildOrderEntry| e@) == build_order_scan(
                commands@.take(i as int),
                player_id,
            ).entries,
        decreases commands.len() - i,
    {
        assert(commands@.take(i + 1).drop_last() =~= commands@.take(i as int));
        let cmd = commands[i];
        i = i + 1;
        if cmd.player_id != player_id {
            continue;
        }
        let uid = match produced_unit_of(&cmd.cmd) {
            Some(u) => u,
            None => {
                continue;
            },
        };
        if !is_known_unit(uid) {
            continue;
        }
        match last_frame_for_unit.get(&uid) {
            Some(last) => {
                let last_frame = *last;
                let gap = if cmd.frame >= last_frame {
                    cmd.frame - last_frame
                } else {
                    0
                };
                if gap < BUILD_ORDER_DEDUP_FRAMES {
                    continue;
                }
            },
            None => {},
        }
        last_frame_for_unit.insert(uid, cmd.frame);
        if is_worker(uid) {
            continue;
        }
        let secs = cmd.frame as u64 * 100 / 2381;
        let mut name = String::new();
        name.append(unit_name(uid));
        let e = BuildOrderEntry {
            frame: cmd.frame,
            time_str: format_clock(secs),
            unit_name: name,
            unit_id: uid,
        };
        let ghost before = entries@;
        entries.push(e);
        assert(entries@.map_values(|e: BuildOrderEntry| e@) =~= before.map_values(
            |e: BuildOrderEntry| e@,
        ).push(e@));
    }
    assert(commands@.take(i as int) =~= commands@);
    entries
}


/// What the scan keeps true: every entry is a known, non-worker unit type whose
/// last accepted frame is at or after the entry, and two entries of the same unit
/// type are at least `BUILD_ORDER_DEDUP_FRAMES` frames apart.
pub open spec fn scan_invariant(st: BuildOrderState) -> bool {
    &&& forall|i: int|
        0 <= i < st.entries.len() ==> {
            let e = #[trigger] st.entries[i];
            &&& unit_label(e.unit_id) is Some
            &&& !is_worker_unit(e.unit_id)
            &&& st.last.contains_key(e.unit_id)
            &&& e.frame <= st.last[e.unit_id]
        }
    &&& forall|i: int, j: int|
        0 <= i < j < st.entries.len() && (#[trigger] st.entries[i]).unit_id == (
        #[trigger] st.entries[j]).unit_id ==> st.entries[i].frame + BUILD_ORDER_DEDUP_FRAMES
            <= st.entries[j].frame
}

proof fn lemma_scan_invariant(cmds: Seq<Command>, player_id: u8)
    ensures
        scan_invariant(build_order_scan(cmds, player_id)),
    decreases cmds.len(),
{
    if cmds.len() > 0 {
        lemma_scan_invariant(cmds.drop_last(), player_id);
        let st = build_order_scan(cmds.drop_last(), player_id);
        let next = build_order_scan(cmds, player_id);
        assert(next == build_order_step(st, cmds.last(), player_id));
        let c = cmds.last();
        if next.entries.len() > st.entries.len() {
            let uid = produced_unit(c.cmd)->Some_0;
            assert forall|i: int, j: int|
                0 <= i < j < next.entries.len() && (#[trigger] next.entries[i]).unit_id == (
                #[trigger] next.entries[j]).unit_id implies next.entries[i].frame
                + BUILD_ORDER_DEDUP_FRAMES <= next.entries[j].frame by {
                if j == st.entries.len() {
                    assert(st.entries[i].unit_id == uid);
                    assert(st.last.contains_key(uid));
                } else {
                    assert(st.entries[i] == next.entries[i]);
                    assert(st.entries[j] == next.entries[j]);
                }
            }
        }
    }
}

/// The build order has no workers and only known unit types, and two entries
/// of the same unit type are at least 24 frames (about a second) apart.
pub proof fn build_order_is_deduplicated(commands: Seq<Command>, player_id: u8)
    ensures
        ({
            let bo = build_order_of(commands, player_id);
            &&& forall|i: int|
                0 <= i < bo.len() ==> !is_worker_unit((#[trigger] bo[i]).unit_id) && unit_label(
                    bo[i].unit_id,
                ) is Some
            &&& forall|i: int, j: int|
                0 <= i < j < bo.len() && (#[trigger] bo[i]).unit_id == (#[trigger] bo[j]).unit_id
                    ==> bo[i].frame + 24 <= bo[j].frame
        }),
{
    lemma_scan_invariant(commands, player_id);
}

/// The scan over all commands ends in the same state as the scan over the
/// player's own commands.
proof fn lemma_scan_own_commands(cmds: Seq<Command>, player_id: u8)
    ensures
        build_order_scan(cmds, player_id) == build_order_scan(
            cmds.filter(|c: Command| c.player_id == player_id),
            player_id,
        ),
    decreases cmds.len(),
{
    let own = |c: Command| c.player_id == player_id;
    reveal(Seq::filter);
    if cmds.len() > 0 {
        lemma_scan_own_commands(cmds.drop_last(), player_id);
        let rest = cmds.drop_last().filter(own);
        if own(cmds.last()) {
            assert(cmds.filter(own) == rest.push(cmds.last()));
            assert(cmds.filter(own).drop_last() =~= rest);
        } else {
            assert(cmds.filter(own) == rest);
        }
    }
}

/// A player's build order depends only on that player's own commands, in their
/// order: other players' commands never change it.  (Nor does the race: the
/// contract of `extract_build_order` fixes its result without it.)
pub proof fn build_order_uses_own_commands(commands: Seq<Command>, player_id: u8)
    ensures
        build_order_of(commands, player_id) == build_order_of(
            commands.filter(|c: Command| c.player_id == player_id),
            player_id,
        ),
{
    lemma_scan_own_commands(commands, player_id);
}

/// Whether a command orders unit type `u`: built, trained or morphed into (by a
/// unit or a building).
pub open spec fn orders_unit(c: CmdType, u: u16) -> bool {
    match c {
        CmdType::Build { unit_id, .. } => unit_id == u,
        CmdType::Train { unit_id } => unit_id == u,
        CmdType::UnitMorph { unit_id } => unit_id == u,
        CmdType::BuildingMorph { unit_id } => unit_id == u,
        _ => false,
    }
}

proof fn lemma_last_from_own_commands(cmds: Seq<Command>, player_id: u8)
    ensures
        forall|u: u16|
            #[trigger] build_order_scan(cmds, player_id).last.contains_key(u) ==> exists|k: int|
                0 <= k < cmds.len() && (#[trigger] cmds[k]).player_id == player_id
                    && cmds[k].frame == build_order_scan(cmds, player_id).last[u],
    decreases cmds.len(),
{
    if cmds.len() > 0 {
        let rest = cmds.drop_last();
        lemma_last_from_own_commands(rest, player_id);
        let st = build_order_scan(rest, player_id);
        let next = build_order_scan(cmds, player_id);
        assert forall|u: u16| #[trigger] next.last.contains_key(u) implies exists|k: int|
            0 <= k < cmds.len() && (#[trigger] cmds[k]).player_id == player_id && cmds[k].frame
                == next.last[u] by {
            if next.last == st.last || next.last[u] == st.last[u] && st.last.contains_key(u) {
                let k = choose|k: int|
                    0 <= k < rest.len() && (#[trigger] rest[k]).player_id == player_id
                        && rest[k].frame == st.last[u];
                assert(cmds[k] == rest[k]);
            } else {
                assert(cmds[cmds.len() - 1] == cmds.last());
            }
        }
    }
}

proof fn lemma_entries_grow(cmds: Seq<Command>, player_id: u8, i: int)
    requires
        0 <= i <= cmds.len(),
    ensures
        build_order_of(cmds.take(i), player_id).len() <= build_order_of(cmds, player_id).len(),
        forall|k: int|
            0 <= k < build_order_of(cmds.take(i), player_id).len() ==> (#[trigger] build_order_of(
                cmds.take(i),
                player_id,
            )[k]) == build_order_of(cmds, player_id)[k],
    decreases cmds.len(),
{
    if i == cmds.len() {
        assert(cmds.take(i) =~= cmds);
    } else {
        let rest = cmds.drop_last();
        lemma_entries_grow(rest, player_id, i);
        assert(rest.take(i) =~= cmds.take(i));
    }
}

/// An order of the player for a known unit type that is not a worker (built,
/// trained, or morphed into by a unit or a building), given 24 or more frames
/// after each of the player's earlier commands, appears in the build order with
/// its frame and unit type.
pub proof fn ordered_unit_enters_build_order(
    commands: Seq<Command>,
    player_id: u8,
    i: int,
    unit: u16,
)
    requires
        0 <= i < commands.len(),
        commands[i].player_id == player_id,
        orders_unit(commands[i].cmd, unit),
        unit_label(unit) is Some,
        !is_worker_unit(unit),
        forall|k: int|
            0 <= k < i && (#[trigger] commands[k]).player_id == player_id ==> commands[k].frame
                + 24 <= commands[i].frame,
    ensures
        exists|j: int|
            0 <= j < build_order_of(commands, player_id).len() && (#[trigger] build_order_of(
                commands,
                player_id,
            )[j]).frame == commands[i].frame && build_order_of(commands, player_id)[j].unit_id
                == unit,
{
    let pre = commands.take(i);
    let upto = commands.take(i + 1);
    assert(upto.drop_last() =~= pre);
    assert(upto.last() == commands[i]);
    lemma_last_from_own_commands(pre, player_id);
    let st = build_order_scan(pre, player_id);
    if st.last.contains_key(unit) {
        let k = choose|k: int|
            0 <= k < pre.len() && (#[trigger] pre[k]).player_id == player_id && pre[k].frame
                == st.last[unit];
        assert(pre[k] == commands[k]);
    }
    assert(produced_unit(commands[i].cmd) == Some(unit));
    let next = build_order_scan(upto, player_id);
    assert(next.entries == st.entries.push(entry_of(commands[i].frame, unit)));
    lemma_entries_grow(commands, player_id, i + 1);
    let j = st.entries.len() as int;
    assert(build_order_of(upto, player_id)[j] == build_order_of(commands, player_id)[j]);
}

} // verus!
