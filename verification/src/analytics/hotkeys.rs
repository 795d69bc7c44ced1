//! Hotkey (control group) usage.
use crate::library::count_where;
use crate::parser::{CmdType, Command, HotkeyAction};
use vstd::prelude::*;

verus! {

/// How often one control group was assigned, selected and added to.
#[derive(Clone, Copy, Debug, Default)]
pub struct HotkeyGroup {
    pub assigns: u32,
    pub selects: u32,
    pub adds: u32,
}

impl HotkeyGroup {
    /// All uses of the group.
    pub fn total(&self) -> (r: u32)
        requires
            self.assigns + self.selects + self.adds <= u32::MAX,
        ensures
            r == self.assigns + self.selects + self.adds,
    {
        self.assigns + self.selects + self.adds
    }
}

/// Usage of the ten control groups; group numbers above 9 count as group 9.
#[derive(Clone, Copy, Debug)]
pub struct HotkeyStats {
    pub groups: [HotkeyGroup; 10],
}

/// The control group a hotkey command counts for.
pub open spec fn group_slot(group: u8) -> int {
    if group < 9 {
        group as int
    } else {
        9
    }
}

/// Whether a command is a hotkey command doing `action` to a group that counts
/// for slot `slot`.
pub open spec fn hotkey_use(cmd: CmdType, action: HotkeyAction, slot: int) -> bool {
    match cmd {
        CmdType::Hotkey { hotkey_type, group } => hotkey_type == action && group_slot(group)
            == slot,
        _ => false,
    }
}

/// How many of the commands are hotkey commands of `player_id` doing `action`
/// to a group that counts for slot `slot`.
pub open spec fn hotkey_uses(cmds: Seq<Command>, player_id: u8, action: HotkeyAction, slot: int) -> nat
    decreases cmds.len(),
{
    if cmds.len() == 0 {
        0
    } else {
        let c = cmds.last();
        hotkey_uses(cmds.drop_last(), player_id, action, slot) + if c.player_id == player_id
            && hotkey_use(c.cmd, action, slot) {
            1nat
        } else {
            0nat
        }
    }
}

proof fn lemma_hotkey_uses_bound(cmds: Seq<Command>, player_id: u8, action: HotkeyAction, slot: int)
    ensures
        hotkey_uses(cmds, player_id, action, slot) <= cmds.len(),
    decreases cmds.len(),
{
    if cmds.len() > 0 {
        lemma_hotkey_uses_bound(cmds.drop_last(), player_id, action, slot);
    }
}

/// Counts a player's control group assigns, selects and adds per group.
pub fn compute_hotkey_stats(commands: &[Command], player_id: u8) -> (r: HotkeyStats)
    requires
        commands@.len() <= u32::MAX,
    ensures
        forall|k: int|
            0 <= k < 10 ==> {
                &&& (#[trigger] r.groups@[k]).assigns == hotkey_uses(
                    commands@,
                    player_id,
                    HotkeyAction::Assign,
                    k,
                )
                &&& r.groups@[k].selects == hotkey_uses(
                    commands@,
                    player_id,
                    HotkeyAction::Select,
                    k,
                )
                &&& r.groups@[k].adds == hotkey_uses(commands@, player_id, HotkeyAction::Add, k)
            },
{
    let mut assigns: Vec<u32> = vec![0u32; 10];
    let mut selects: Vec<u32> = vec![0u32; 10];
    let mut adds: Vec<u32> = vec![0u32; 10];
    let mut i: usize = 0;
    while i < commands.len()
        invariant
            i <= commands@.len() <= u32::MAX,
            assigns@.len() == 10,
            selects@.len() == 10,
            adds@.len() == 10,
            forall|k: int|
                0 <= k < 10 ==> #[trigger] assigns@[k] == hotkey_uses(
                    commands@.take(i as int),
                    player_id,
                    HotkeyAction::Assign,
                    k,
                ),
            forall|k: int|
                0 <= k < 10 ==> #[trigger] selects@[k] == hotkey_uses(
                    commands@.take(i as int),
                    player_id,
                    HotkeyAction::Select,
                    k,
                ),
            forall|k: int|
                0 <= k < 10 ==> #[trigger] adds@[k] == hotkey_uses(
                    commands@.take(i as int),
                    player_id,
                    HotkeyAction::Add,
                    k,
                ),
        decreases commands.len() - i,
    {
        let ghost prefix = commands@.take(i as int);
        assert(commands@.take(i + 1).drop_last() =~= prefix);
        proof {
            assert forall|k: int, a: HotkeyAction| 0 <= k < 10 implies #[trigger] hotkey_uses(
                prefix,
                player_id,
                a,
                k,
            ) <= i by {
                lemma_hotkey_uses_bound(prefix, player_id, a, k);
            }
        }
        let cmd = commands[i];
        if cmd.player_id == player_id {
            if let CmdType::Hotkey { hotkey_type, group } = cmd.cmd {
                let idx: usize = if group < 9 {
                    group as usize
                } else {
                    9
                };
                match hotkey_type {
                    HotkeyAction::Assign => {
                        let v = assigns[idx];
                        assigns.set(idx, v + 1);
                    },
                    HotkeyAction::Select => {
                        let v = selects[idx];
                        selects.set(idx, v + 1);
                    },
                    HotkeyAction::Add => {
                        let v = adds[idx];
                        adds.set(idx, v + 1);
                    },
                    _ => {},
                }
            }
        }
        i = i + 1;
    }
    assert(commands@.take(i as int) =~= commands@);
    let mut groups: Vec<HotkeyGroup> = Vec::new();
    let mut k: usize = 0;
    while k < 10
        invariant
            k <= 10,
            groups@.len() == k,
            assigns@.len() == 10,
            selects@.len() == 10,
            adds@.len() == 10,
            forall|j: int|
                0 <= j < k ==> (#[trigger] groups@[j]).assigns == assigns@[j] && groups@[j].selects
                    == selects@[j] && groups@[j].adds == adds@[j],
        decreases 10 - k,
    {
        groups.push(HotkeyGroup { assigns: assigns[k], selects: selects[k], adds: adds[k] });
        k = k + 1;
    }
    let stats = HotkeyStats {
        groups: [
            groups[0],
            groups[1],
            groups[2],
            groups[3],
            groups[4],
            groups[5],
            groups[6],
            groups[7],
            groups[8],
            groups[9],
        ],
    };
    assert forall|j: int| 0 <= j < 10 implies (#[trigger] stats.groups@[j]) == groups@[j] by {
        if j == 0 {
        } else if j == 1 {
        } else if j == 2 {
        } else if j == 3 {
        } else if j == 4 {
        } else if j == 5 {
        } else if j == 6 {
        } else if j == 7 {
        } else if j == 8 {
        } else {
        }
    }
    stats
}

/// Whether a command is a hotkey command of `player_id` doing `action` to group
/// `slot`, or, for slot 9, to any group numbered 9 or above.
pub open spec fn counts_in_slot(c: Command, player_id: u8, action: HotkeyAction, slot: int) -> bool {
    c.player_id == player_id && match c.cmd {
        CmdType::Hotkey { hotkey_type, group } => hotkey_type == action && (group == slot || (
        slot == 9 && group > 9)),
        _ => false,
    }
}

/// Each of the ten slots counts exactly the player's hotkey commands with that
/// action on its own group; slot 9 also counts the groups above 9.
pub proof fn hotkey_slots_count_their_group(
    commands: Seq<Command>,
    player_id: u8,
    action: HotkeyAction,
    slot: int,
)
    requires
        0 <= slot < 10,
    ensures
        hotkey_uses(commands, player_id, action, slot) == count_where(
            commands,
            |c: Command| counts_in_slot(c, player_id, action, slot),
        ),
    decreases commands.len(),
{
    if commands.len() > 0 {
        hotkey_slots_count_their_group(commands.drop_last(), player_id, action, slot);
    }
}

} // verus!
