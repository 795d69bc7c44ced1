//! Action counts per game minute, for APM and effective APM (EAPM).
use crate::parser::costs::{is_worker, is_worker_unit};
use crate::parser::{CmdType, Command, HotkeyAction};
use vstd::prelude::*;

verus! {

/// Whether a command is a real player action (not a keep-alive, chat, leave,
/// minimap ping or other non-order command).
pub open spec fn player_action(cmd: CmdType) -> bool {
    !(cmd is KeepAlive || cmd is Other || cmd is Chat || cmd is LeaveGame || cmd is MinimapPing)
}

/// Whether a command changes the selection: a select, or a hotkey select.
pub open spec fn selection_changer(cmd: CmdType) -> bool {
    cmd is Select || (cmd matches CmdType::Hotkey { hotkey_type, .. } && hotkey_type
        == HotkeyAction::Select)
}

/// Whether two map positions are within 128 pixels (4 tiles) of each other on both axes.
pub open spec fn near(x1: u16, y1: u16, x2: u16, y2: u16) -> bool {
    -128 <= x1 - x2 <= 128 && -128 <= y1 - y2 <= 128
}

/// Whether `cur` cancels the production, morph, construction, upgrade or research
/// that `prev` ordered.
pub open spec fn cancels(prev: CmdType, cur: CmdType) -> bool {
    ||| (prev is Train || prev is TrainFighter) && cur is CancelTrain
    ||| (prev is UnitMorph || prev is BuildingMorph) && cur is CancelMorph
    ||| prev is Build && cur is CancelBuild
    ||| prev is Upgrade && cur is CancelUpgrade
    ||| prev is Tech && cur is CancelTech
}

/// Whether `cur` repeats `prev` as a stop, hold position or return cargo.
pub open spec fn repeats_order(prev: CmdType, cur: CmdType) -> bool {
    ||| prev is Stop && cur is Stop
    ||| prev is HoldPosition && cur is HoldPosition
    ||| prev is ReturnCargo && cur is ReturnCargo
}

/// Whether both commands select the same hotkey group.
pub open spec fn same_group_select(a: CmdType, b: CmdType) -> bool {
    match (a, b) {
        (
            CmdType::Hotkey { hotkey_type: HotkeyAction::Select, group: g1 },
            CmdType::Hotkey { hotkey_type: HotkeyAction::Select, group: g2 },
        ) => g1 == g2,
        _ => false,
    }
}

/// Whether both commands train the same worker type.
pub open spec fn same_worker_training(a: CmdType, b: CmdType) -> bool {
    match (a, b) {
        (CmdType::Train { unit_id: i1 }, CmdType::Train { unit_id: i2 }) => i1 == i2
            && is_worker_unit(i1),
        _ => false,
    }
}

/// Whether both commands are right-clicks within 4 tiles of each other.
pub open spec fn nearby_right_clicks(a: CmdType, b: CmdType) -> bool {
    match (a, b) {
        (CmdType::RightClick { x: x1, y: y1, .. }, CmdType::RightClick { x: x2, y: y2, .. }) => near(
            x1,
            y1,
            x2,
            y2,
        ),
        _ => false,
    }
}

/// Whether both commands are the same targeted order within 4 tiles of each other.
pub open spec fn nearby_same_orders(a: CmdType, b: CmdType) -> bool {
    match (a, b) {
        (
            CmdType::TargetedOrder { x: x1, y: y1, order_id: o1, .. },
            CmdType::TargetedOrder { x: x2, y: y2, order_id: o2, .. },
        ) => o1 == o2 && near(x1, y1, x2, y2),
        _ => false,
    }
}

/// Whether both commands assign (or both add to) the same hotkey group.
pub open spec fn repeated_group_change(a: CmdType, b: CmdType) -> bool {
    match (a, b) {
        (
            CmdType::Hotkey { hotkey_type: ht1, group: g1 },
            CmdType::Hotkey { hotkey_type: ht2, group: g2 },
        ) => g1 == g2 && ht1 != HotkeyAction::Select && ht1 == ht2,
        _ => false,
    }
}

/// Whether an action is ineffective (filtered out of EAPM), given the player's
/// previous action.  The first action is always effective.  With `delta` the
/// frames since the previous action (0 if it is later):
/// - `delta <= 2`: double registration;
/// - `delta <= 28`, both change the selection: selection cycling, unless both
///   select the same hotkey group (a double tap to centre the view);
/// - `delta <= 36`, both train the same worker type: worker spam;
/// - `delta <= 12`, both right-click within 4 tiles: right-click spam;
/// - `delta <= 12`, both give the same targeted order within 4 tiles;
/// - `delta <= 30`, the action cancels what the previous one ordered;
/// - `delta <= 20`, a repeated stop, hold position or return cargo;
/// - both assign (or both add to) the same hotkey group.
pub open spec fn ineffective(cmd: Command, prev: Option<Command>) -> bool {
    match prev {
        None => false,
        Some(p) => {
            let delta: int = if cmd.frame >= p.frame {
                cmd.frame - p.frame
            } else {
                0
            };
            if delta <= 2 {
                true
            } else if delta <= 28 && selection_changer(cmd.cmd) && selection_changer(p.cmd) {
                !same_group_select(cmd.cmd, p.cmd)
            } else if delta <= 36 && same_worker_training(cmd.cmd, p.cmd) {
                true
            } else if delta <= 12 && nearby_right_clicks(cmd.cmd, p.cmd) {
                true
            } else if delta <= 12 && nearby_same_orders(cmd.cmd, p.cmd) {
                true
            } else if delta <= 30 && cancels(p.cmd, cmd.cmd) {
                true
            } else if delta <= 20 && repeats_order(p.cmd, cmd.cmd) {
                true
            } else {
                repeated_group_change(cmd.cmd, p.cmd)
            }
        },
    }
}

/// The frames from `prev` to `cur`, zero when `cur` is earlier.
pub open spec fn frames_after(prev: Command, cur: Command) -> int {
    if cur.frame >= prev.frame {
        cur.frame - prev.frame
    } else {
        0
    }
}

/// Whether a command selects units: a selection or a hotkey select.
pub open spec fn selects_units(c: CmdType) -> bool {
    match c {
        CmdType::Select { .. } => true,
        CmdType::Hotkey { hotkey_type: HotkeyAction::Select, .. } => true,
        _ => false,
    }
}

/// Whether both commands select the same hotkey group.
pub open spec fn both_select_group(a: CmdType, b: CmdType) -> bool {
    &&& a matches CmdType::Hotkey { hotkey_type: HotkeyAction::Select, group: ga }
    &&& b matches CmdType::Hotkey { hotkey_type: HotkeyAction::Select, group: gb }
    &&& ga == gb
}

/// Whether both commands do the same hotkey action other than a select (both
/// assign, both add, or the same unrecognised action) to the same group.
pub open spec fn both_change_group(a: CmdType, b: CmdType) -> bool {
    &&& a matches CmdType::Hotkey { hotkey_type: ta, group: ga }
    &&& b matches CmdType::Hotkey { hotkey_type: tb, group: gb }
    &&& ga == gb && ta == tb && !(ta matches HotkeyAction::Select)
}

/// Whether two coordinates differ by at most 128 on both axes.
pub open spec fn within_four_tiles(x1: u16, y1: u16, x2: u16, y2: u16) -> bool {
    x1 <= x2 + 128 && x2 <= x1 + 128 && y1 <= y2 + 128 && y2 <= y1 + 128
}

/// Whether both are right-clicks at most 4 tiles apart.
pub open spec fn close_right_clicks(a: CmdType, b: CmdType) -> bool {
    &&& a matches CmdType::RightClick { x: x1, y: y1, .. }
    &&& b matches CmdType::RightClick { x: x2, y: y2, .. }
    &&& within_four_tiles(x1, y1, x2, y2)
}

/// Whether both are the same targeted order at most 4 tiles apart.
pub open spec fn close_same_orders(a: CmdType, b: CmdType) -> bool {
    &&& a matches CmdType::TargetedOrder { x: x1, y: y1, order_id: o1, .. }
    &&& b matches CmdType::TargetedOrder { x: x2, y: y2, order_id: o2, .. }
    &&& o1 == o2 && within_four_tiles(x1, y1, x2, y2)
}

/// Whether both train the same worker type.
pub open spec fn both_train_worker(a: CmdType, b: CmdType) -> bool {
    &&& a matches CmdType::Train { unit_id: u1 }
    &&& b matches CmdType::Train { unit_id: u2 }
    &&& u1 == u2 && is_worker_unit(u1)
}

/// Whether `cur` cancels what `prev` ordered: a training, a morph, a
/// construction, an upgrade or a research.
pub open spec fn cancel_of(prev: CmdType, cur: CmdType) -> bool {
    match (prev, cur) {
        (CmdType::Train { .. }, CmdType::CancelTrain) => true,
        (CmdType::TrainFighter, CmdType::CancelTrain) => true,
        (CmdType::UnitMorph { .. }, CmdType::CancelMorph) => true,
        (CmdType::BuildingMorph { .. }, CmdType::CancelMorph) => true,
        (CmdType::Build { .. }, CmdType::CancelBuild) => true,
        (CmdType::Upgrade { .. }, CmdType::CancelUpgrade) => true,
        (CmdType::Tech { .. }, CmdType::CancelTech) => true,
        _ => false,
    }
}

/// Whether `cur` repeats `prev` as a stop, a hold position or a return cargo.
pub open spec fn repeated_halt(prev: CmdType, cur: CmdType) -> bool {
    match (prev, cur) {
        (CmdType::Stop, CmdType::Stop) => true,
        (CmdType::HoldPosition, CmdType::HoldPosition) => true,
        (CmdType::ReturnCargo, CmdType::ReturnCargo) => true,
        _ => false,
    }
}

/// The spam rules of EAPM, each with its time window, in both directions: an
/// action within a rule's window of a matching previous action is ineffective,
/// and one just past the window (and matching no other rule) is effective.  A
/// player's first action is effective.
pub proof fn spam_rules(prev: Command, cur: Command)
    ensures
        !ineffective(cur, None),
        frames_after(prev, cur) <= 2 ==> ineffective(cur, Some(prev)),
        frames_after(prev, cur) <= 28 && selects_units(prev.cmd) && selects_units(cur.cmd)
            && !both_select_group(prev.cmd, cur.cmd) ==> ineffective(cur, Some(prev)),
        frames_after(prev, cur) > 2 && both_select_group(prev.cmd, cur.cmd) ==> !ineffective(
            cur,
            Some(prev),
        ),
        frames_after(prev, cur) > 28 && selects_units(prev.cmd) && selects_units(cur.cmd)
            ==> !ineffective(cur, Some(prev)),
        frames_after(prev, cur) <= 36 && both_train_worker(prev.cmd, cur.cmd) ==> ineffective(
            cur,
            Some(prev),
        ),
        frames_after(prev, cur) > 36 && both_train_worker(prev.cmd, cur.cmd) ==> !ineffective(
            cur,
            Some(prev),
        ),
        frames_after(prev, cur) <= 12 && close_right_clicks(prev.cmd, cur.cmd) ==> ineffective(
            cur,
            Some(prev),
        ),
        frames_after(prev, cur) > 12 && (prev.cmd is RightClick && cur.cmd is RightClick)
            ==> !ineffective(cur, Some(prev)),
        frames_after(prev, cur) <= 12 && close_same_orders(prev.cmd, cur.cmd) ==> ineffective(
            cur,
            Some(prev),
        ),
        frames_after(prev, cur) > 12 && (prev.cmd is TargetedOrder && cur.cmd is TargetedOrder)
            ==> !ineffective(cur, Some(prev)),
        frames_after(prev, cur) <= 30 && cancel_of(prev.cmd, cur.cmd) ==> ineffective(
            cur,
            Some(prev),
        ),
        frames_after(prev, cur) > 30 && cancel_of(prev.cmd, cur.cmd) ==> !ineffective(
            cur,
            Some(prev),
        ),
        frames_after(prev, cur) <= 20 && repeated_halt(prev.cmd, cur.cmd) ==> ineffective(
            cur,
            Some(prev),
        ),
        frames_after(prev, cur) > 20 && repeated_halt(prev.cmd, cur.cmd) ==> !ineffective(
            cur,
            Some(prev),
        ),
        both_change_group(prev.cmd, cur.cmd) ==> ineffective(cur, Some(prev)),
        frames_after(prev, cur) > 36 && !both_change_group(prev.cmd, cur.cmd) ==> !ineffective(
            cur,
            Some(prev),
        ),
{
}

/// Returns true if the command is a real player action.
pub fn is_player_action(cmd: &CmdType) -> (r: bool)
    ensures
        r == player_action(*cmd),
{
    match cmd {
        CmdType::KeepAlive | CmdType::Other { .. } | CmdType::Chat { .. }
        | CmdType::LeaveGame { .. } | CmdType::MinimapPing { .. } => false,
        _ => true,
    }
}

/// Returns true if the command changes the selection.
pub fn is_selection_changer(cmd: &CmdType) -> (r: bool)
    ensures
        r == selection_changer(*cmd),
{
    match cmd {
        CmdType::Select { .. } => true,
        CmdType::Hotkey { hotkey_type: HotkeyAction::Select, .. } => true,
        _ => false,
    }
}

fn is_near(x1: u16, y1: u16, x2: u16, y2: u16) -> (r: bool)
    ensures
        r == near(x1, y1, x2, y2),
{
    let dx = x1 as i32 - x2 as i32;
    let dy = y1 as i32 - y2 as i32;
    -128 <= dx && dx <= 128 && -128 <= dy && dy <= 128
}

/// Returns true if the command should be filtered out for EAPM: redundant
/// selects, spam clicks, fast cancels, worker training spam, repeated
/// right-clicks and micro-interval spam.
pub fn is_ineffective(cmd: &Command, prev: Option<&Command>) -> (r: bool)
    ensures
        r == ineffective(
            *cmd,
            match prev {
                Some(p) => Some(*p),
                None => None,
            },
        ),
{
    let prev = match prev {
        Some(p) => p,
        None => {
            return false;
        },
    };
    let delta = if cmd.frame >= prev.frame {
        cmd.frame - prev.frame
    } else {
        0
    };
    if delta <= 2 {
        return true;
    }
    if delta <= 28 && is_selection_changer(&cmd.cmd) && is_selection_changer(&prev.cmd) {
        if let (
            CmdType::Hotkey { hotkey_type: HotkeyAction::Select, group: g1 },
            CmdType::Hotkey { hotkey_type: HotkeyAction::Select, group: g2 },
        ) = (&cmd.cmd, &prev.cmd) {
            if g1 == g2 {
                return false;
            }
        }
        return true;
    }
    if delta <= 36 {
        if let (CmdType::Train { unit_id: id1 }, CmdType::Train { unit_id: id2 }) = (
            &cmd.cmd,
            &prev.cmd,
        ) {
            if id1 == id2 && is_worker(*id1) {
                return true;
            }
        }
    }
    if delta <= 12 {
        if let (CmdType::RightClick { x: x1, y: y1, .. }, CmdType::RightClick { x: x2, y: y2, .. }) =
            (&cmd.cmd, &prev.cmd) {
            if is_near(*x1, *y1, *x2, *y2) {
                return true;
            }
        }
    }
    if delta <= 12 {
        if let (
            CmdType::TargetedOrder { x: x1, y: y1, order_id: o1, .. },
            CmdType::TargetedOrder { x: x2, y: y2, order_id: o2, .. },
        ) = (&cmd.cmd, &prev.cmd) {
            if o1 == o2 && is_near(*x1, *y1, *x2, *y2) {
                return true;
            }
        }
    }
    if delta <= 30 {
        match (&prev.cmd, &cmd.cmd) {
            (CmdType::Train { .. } | CmdType::TrainFighter, CmdType::CancelTrain) => {
                return true;
            },
            (CmdType::UnitMorph { .. } | CmdType::BuildingMorph { .. }, CmdType::CancelMorph) => {
                return true;
            },
            (CmdType::Build { .. }, CmdType::CancelBuild) => {
                return true;
            },
            (CmdType::Upgrade { .. }, CmdType::CancelUpgrade) => {
                return true;
            },
            (CmdType::Tech { .. }, CmdType::CancelTech) => {
                return true;
            },
            _ => {},
        }
    }
    if delta <= 20 {
        match (&prev.cmd, &cmd.cmd) {
            (CmdType::Stop, CmdType::Stop) | (CmdType::HoldPosition, CmdType::HoldPosition) => {
                return true;
            },
            (CmdType::ReturnCargo, CmdType::ReturnCargo) => {
                return true;
            },
            _ => {},
        }
    }
    if let (
        CmdType::Hotkey { hotkey_type: ht1, group: g1 },
        CmdType::Hotkey { hotkey_type: ht2, group: g2 },
    ) = (&cmd.cmd, &prev.cmd) {
        if g1 == g2 && *ht1 != HotkeyAction::Select && ht1 == ht2 {
            return true;
        }
    }
    false
}


/// The player's actions among the commands, in order.
pub open spec fn actions_of(cmds: Seq<Command>, player_id: u8) -> Seq<Command>
    decreases cmds.len(),
{
    if cmds.len() == 0 {
        seq![]
    } else {
        let rest = actions_of(cmds.drop_last(), player_id);
        let c = cmds.last();
        if c.player_id == player_id && player_action(c.cmd) {
            rest.push(c)
        } else {
            rest
        }
    }
}

/// The number of one-minute buckets of a game of `total_frames` frames: the
/// game's length in minutes (1428.6 frames each), rounded up, and at least one.
pub open spec fn minute_count(total_frames: u32) -> nat {
    let m = (total_frames * 10 + 14285) / 14286;
    if m < 1 {
        1
    } else {
        m as nat
    }
}

/// The bucket of an action on `frame` among `n` buckets: its minute, or the last
/// bucket for actions past the end.
pub open spec fn minute_bucket(frame: u32, n: nat) -> int {
    let m = frame * 10 / 14286;
    if m < n {
        m
    } else {
        n - 1
    }
}

/// Whether action `i` of `acts` is effective, given the action before it.
pub open spec fn effective_at(acts: Seq<Command>, i: int) -> bool {
    !ineffective(
        acts[i],
        if i > 0 {
            Some(acts[i - 1])
        } else {
            None
        },
    )
}

/// How many of the first `k` actions fall in bucket `b` of `n`.
pub open spec fn actions_in_minute(acts: Seq<Command>, k: int, n: nat, b: int) -> nat
    decreases k,
{
    if k <= 0 {
        0
    } else {
        actions_in_minute(acts, k - 1, n, b) + if minute_bucket(acts[k - 1].frame, n) == b {
            1nat
        } else {
            0nat
        }
    }
}

/// How many of the first `k` actions fall in bucket `b` of `n` and are effective.
pub open spec fn effective_in_minute(acts: Seq<Command>, k: int, n: nat, b: int) -> nat
    decreases k,
{
    if k <= 0 {
        0
    } else {
        effective_in_minute(acts, k - 1, n, b) + if minute_bucket(acts[k - 1].frame, n) == b
            && effective_at(acts, k - 1) {
            1nat
        } else {
            0nat
        }
    }
}

/// Action counts of one player, per game minute.
pub struct ActionCounts {
    /// Actions per minute bucket.
    pub apm_per_minute: Vec<usize>,
    /// Effective actions per minute bucket.
    pub eapm_per_minute: Vec<usize>,
}

proof fn lemma_effective_le(acts: Seq<Command>, k: int, n: nat, b: int)
    ensures
        effective_in_minute(acts, k, n, b) <= actions_in_minute(acts, k, n, b),
    decreases k,
{
    if k > 0 {
        lemma_effective_le(acts, k - 1, n, b);
    }
}

/// In every minute, a player's effective actions never outnumber the player's actions.
pub proof fn eapm_at_most_apm(commands: Seq<Command>, player_id: u8, total_frames: u32, b: int)
    ensures
        ({
            let acts = actions_of(commands, player_id);
            let n = minute_count(total_frames);
            effective_in_minute(acts, acts.len() as int, n, b) <= actions_in_minute(
                acts,
                acts.len() as int,
                n,
                b,
            )
        }),
{
    let acts = actions_of(commands, player_id);
    lemma_effective_le(acts, acts.len() as int, minute_count(total_frames), b);
}

proof fn lemma_ineffective_bucket(acts: Seq<Command>, k: int, n: nat, i: int)
    requires
        0 <= i < k <= acts.len(),
        !effective_at(acts, i),
    ensures
        effective_in_minute(acts, k, n, minute_bucket(acts[i].frame, n)) < actions_in_minute(
            acts,
            k,
            n,
            minute_bucket(acts[i].frame, n),
        ),
    decreases k,
{
    let b = minute_bucket(acts[i].frame, n);
    if k - 1 == i {
        lemma_effective_le(acts, k - 1, n, b);
    } else {
        lemma_ineffective_bucket(acts, k - 1, n, i);
    }
}

/// In the minute of an ineffective action, a player's effective actions are
/// strictly fewer than the player's actions.
pub proof fn ineffective_action_lowers_eapm(
    commands: Seq<Command>,
    player_id: u8,
    total_frames: u32,
    i: int,
)
    requires
        0 <= i < actions_of(commands, player_id).len(),
        !effective_at(actions_of(commands, player_id), i),
    ensures
        ({
            let acts = actions_of(commands, player_id);
            let n = minute_count(total_frames);
            let b = minute_bucket(acts[i].frame, n);
            &&& 0 <= b < n
            &&& effective_in_minute(acts, acts.len() as int, n, b) < actions_in_minute(
                acts,
                acts.len() as int,
                n,
                b,
            )
        }),
{
    let acts = actions_of(commands, player_id);
    lemma_ineffective_bucket(acts, acts.len() as int, minute_count(total_frames), i);
}

/// The actions of the first `k` actions counted over buckets `0..upto` of `n`.
pub open spec fn actions_in_minutes(acts: Seq<Command>, k: int, n: nat, upto: int) -> nat
    decreases upto,
{
    if upto <= 0 {
        0
    } else {
        actions_in_minutes(acts, k, n, upto - 1) + actions_in_minute(acts, k, n, upto - 1)
    }
}

/// The effective actions of the first `k` actions counted over buckets `0..upto` of `n`.
pub open spec fn effective_in_minutes(acts: Seq<Command>, k: int, n: nat, upto: int) -> nat
    decreases upto,
{
    if upto <= 0 {
        0
    } else {
        effective_in_minutes(acts, k, n, upto - 1) + effective_in_minute(acts, k, n, upto - 1)
    }
}

proof fn lemma_minutes_sum(acts: Seq<Command>, n: nat, upto: int, i: int)
    requires
        0 <= i < acts.len(),
        n >= 1,
    ensures
        !effective_at(acts, i) && minute_bucket(acts[i].frame, n) < upto ==> effective_in_minutes(
            acts,
            acts.len() as int,
            n,
            upto,
        ) < actions_in_minutes(acts, acts.len() as int, n, upto),
    decreases upto,
{
    if upto > 0 {
        lemma_minutes_sum(acts, n, upto - 1, i);
        lemma_effective_le_all(acts, n, upto - 1);
        lemma_effective_le(acts, acts.len() as int, n, upto - 1);
        if !effective_at(acts, i) && minute_bucket(acts[i].frame, n) == upto - 1 {
            lemma_ineffective_bucket(acts, acts.len() as int, n, i);
        }
    }
}

/// Over the whole game, a player's effective actions never outnumber the
/// player's actions, and are strictly fewer once any action is ineffective.
pub proof fn eapm_total_below_apm(commands: Seq<Command>, player_id: u8, total_frames: u32)
    ensures
        ({
            let acts = actions_of(commands, player_id);
            let n = minute_count(total_frames);
            &&& effective_in_minutes(acts, acts.len() as int, n, n as int) <= actions_in_minutes(
                acts,
                acts.len() as int,
                n,
                n as int,
            )
            &&& (exists|i: int| 0 <= i < acts.len() && !effective_at(acts, i))
                ==> effective_in_minutes(acts, acts.len() as int, n, n as int)
                < actions_in_minutes(acts, acts.len() as int, n, n as int)
        }),
{
    let acts = actions_of(commands, player_id);
    let n = minute_count(total_frames);
    lemma_effective_le_all(acts, n, n as int);
    if exists|i: int| 0 <= i < acts.len() && !effective_at(acts, i) {
        let i = choose|i: int| 0 <= i < acts.len() && !effective_at(acts, i);
        lemma_minutes_sum(acts, n, n as int, i);
    }
}

proof fn lemma_effective_le_all(acts: Seq<Command>, n: nat, upto: int)
    ensures
        effective_in_minutes(acts, acts.len() as int, n, upto) <= actions_in_minutes(
            acts,
            acts.len() as int,
            n,
            upto,
        ),
    decreases upto,
{
    if upto > 0 {
        lemma_effective_le_all(acts, n, upto - 1);
        lemma_effective_le(acts, acts.len() as int, n, upto - 1);
    }
}

/// A player's first action is always effective.
pub proof fn first_action_effective(commands: Seq<Command>, player_id: u8)
    requires
        actions_of(commands, player_id).len() > 0,
    ensures
        effective_at(actions_of(commands, player_id), 0),
{
}

/// Selects the player's actions among the commands.
pub fn player_actions(commands: &[Command], player_id: u8) -> (r: Vec<Command>)
    ensures
        r@ == actions_of(commands@, player_id),
{
    let mut out: Vec<Command> = Vec::new();
    let mut i: usize = 0;
    while i < commands.len()
        invariant
            i <= commands@.len(),
            out@ == actions_of(commands@.take(i as int), player_id),
        decreases commands.len() - i,
    {
        assert(commands@.take(i + 1).drop_last() =~= commands@.take(i as int));
        let c = commands[i];
        if c.player_id == player_id && is_player_action(&c.cmd) {
            out.push(c);
        }
        i = i + 1;
    }
    assert(commands@.take(i as int) =~= commands@);
    out
}

/// Counts a player's actions and effective actions per game minute, over
/// `minute_count(total_frames)` buckets (actions past the end count in the last).
pub fn count_actions(commands: &[Command], player_id: u8, total_frames: u32) -> (r: ActionCounts)
    ensures
        ({
            let acts = actions_of(commands@, player_id);
            let n = minute_count(total_frames);
            &&& r.apm_per_minute@.len() == n
            &&& r.eapm_per_minute@.len() == n
            &&& forall|b: int|
                0 <= b < n ==> r.apm_per_minute@[b] == actions_in_minute(
                    acts,
                    acts.len() as int,
                    n,
                    b,
                )
            &&& forall|b: int|
                0 <= b < n ==> r.eapm_per_minute@[b] == effective_in_minute(
                    acts,
                    acts.len() as int,
                    n,
                    b,
                )
            &&& forall|b: int| 0 <= b < n ==> r.eapm_per_minute@[b] <= r.apm_per_minute@[b]
        }),
{
    let acts = player_actions(commands, player_id);
    let m: u64 = (total_frames as u64 * 10 + 14285) / 14286;
    let n: usize = if m < 1 {
        1
    } else {
        m as usize
    };
    let ghost gn = minute_count(total_frames);
    assert(n == gn);
    let mut apm: Vec<usize> = vec![0usize; n];
    let mut eapm: Vec<usize> = vec![0usize; n];
    let mut i: usize = 0;
    while i < acts.len()
        invariant
            i <= acts@.len(),
            n == gn,
            n >= 1,
            apm@.len() == n,
            eapm@.len() == n,
            forall|b: int| 0 <= b < n ==> apm@[b] == actions_in_minute(acts@, i as int, gn, b),
            forall|b: int| 0 <= b < n ==> eapm@[b] == effective_in_minute(acts@, i as int, gn, b),
            forall|b: int| 0 <= b < n ==> apm@[b] <= i,
            forall|b: int| 0 <= b < n ==> eapm@[b] <= i,
        decreases acts.len() - i,
    {
        let c = acts[i];
        let minute: u64 = c.frame as u64 * 10 / 14286;
        let bucket: usize = if minute < n as u64 {
            minute as usize
        } else {
            n - 1
        };
        assert(bucket == minute_bucket(c.frame, gn));
        let prev = if i > 0 {
            Some(&acts[i - 1])
        } else {
            None
        };
        let effective = !is_ineffective(&c, prev);
        assert(effective == effective_at(acts@, i as int));
        let a = apm[bucket];
        apm.set(bucket, a + 1);
        if effective {
            let e = eapm[bucket];
            eapm.set(bucket, e + 1);
        }
        i = i + 1;
    }
    proof {
        assert forall|b: int| 0 <= b < n implies eapm@[b] <= apm@[b] by {
            lemma_effective_le(acts@, acts@.len() as int, gn, b);
        }
    }
    ActionCounts { apm_per_minute: apm, eapm_per_minute: eapm }
}

} // verus!
