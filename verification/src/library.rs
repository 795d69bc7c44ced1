//! Replay library logic: whether the configured player won a replay, how
//! library entries are ordered, and how durations and dates are shown.
use crate::parser::{CmdType, Command, PlayerType, PlayerView, Replay, ReplayView};
use crate::text::{contains_seq, contains_text, lowercase, to_lower};
use vstd::prelude::*;

verus! {

/// The first index of `s` whose element satisfies `pred`.
pub open spec fn first_index<T>(s: Seq<T>, pred: spec_fn(T) -> bool) -> Option<int>
    decreases s.len(),
{
    if s.len() == 0 {
        None
    } else if pred(s[0]) {
        Some(0)
    } else {
        match first_index(s.drop_first(), pred) {
            Some(i) => Some(i + 1),
            None => None,
        }
    }
}

/// The last index of `s` whose element satisfies `pred`.
pub open spec fn last_index<T>(s: Seq<T>, pred: spec_fn(T) -> bool) -> Option<int>
    decreases s.len(),
{
    if s.len() == 0 {
        None
    } else if pred(s.last()) {
        Some(s.len() - 1)
    } else {
        last_index(s.drop_last(), pred)
    }
}

/// How many elements of `s` satisfy `pred`.
pub open spec fn count_where<T>(s: Seq<T>, pred: spec_fn(T) -> bool) -> nat
    decreases s.len(),
{
    if s.len() == 0 {
        0
    } else {
        count_where(s.drop_last(), pred) + if pred(s.last()) {
            1nat
        } else {
            0nat
        }
    }
}

pub(crate) proof fn lemma_first_index<T>(s: Seq<T>, pred: spec_fn(T) -> bool, i: int)
    requires
        0 <= i <= s.len(),
        forall|j: int| 0 <= j < i ==> !pred(#[trigger] s[j]),
    ensures
        i < s.len() && pred(s[i]) ==> first_index(s, pred) == Some(i),
        i == s.len() ==> first_index(s, pred) == None::<int>,
    decreases i,
{
    if i > 0 {
        assert forall|j: int| 0 <= j < i - 1 implies !pred(#[trigger] s.drop_first()[j]) by {
            assert(s.drop_first()[j] == s[j + 1]);
        }
        lemma_first_index(s.drop_first(), pred, i - 1);
    } else if s.len() > 0 {
    }
}

proof fn lemma_last_index<T>(s: Seq<T>, pred: spec_fn(T) -> bool, i: int)
    requires
        -1 <= i < s.len(),
        forall|j: int| i < j < s.len() ==> !pred(#[trigger] s[j]),
    ensures
        i >= 0 && pred(s[i]) ==> last_index(s, pred) == Some(i),
        i == -1 ==> last_index(s, pred) == None::<int>,
    decreases s.len(),
{
    if s.len() > 0 && i < s.len() - 1 {
        assert forall|j: int| i < j < s.len() - 1 implies !pred(#[trigger] s.drop_last()[j]) by {
            assert(s.drop_last()[j] == s[j]);
        }
        lemma_last_index(s.drop_last(), pred, i);
    }
}

/// The outcome of a replay for the configured player.
#[derive(Clone, Copy, Debug, PartialEq, Eq, Structural)]
pub enum GameOutcome {
    Win,
    Loss,
    NotInGame,
    Undetermined,
}

/// The text shown for an outcome.
pub open spec fn outcome_label(o: GameOutcome) -> Seq<char> {
    match o {
        GameOutcome::Win => "Win"@,
        GameOutcome::Loss => "Loss"@,
        GameOutcome::NotInGame => "Not in game"@,
        GameOutcome::Undetermined => "Undetermined"@,
    }
}

impl GameOutcome {
    /// The text shown for the outcome.
    pub fn label(&self) -> (r: String)
        ensures
            r@ == outcome_label(*self),
    {
        match self {
            GameOutcome::Win => String::from_str("Win"),
            GameOutcome::Loss => String::from_str("Loss"),
            GameOutcome::NotInGame => String::from_str("Not in game"),
            GameOutcome::Undetermined => String::from_str("Undetermined"),
        }
    }
}

/// The players' names, lowercased.
pub open spec fn lowered_names(ps: Seq<PlayerView>) -> Seq<Seq<char>> {
    ps.map_values(|p: PlayerView| to_lower(p.name))
}

/// The views of a sequence of strings.
pub open spec fn strings_view(v: Seq<String>) -> Seq<Seq<char>> {
    v.map_values(|s: String| s@)
}

/// Whether a player is human.
pub open spec fn is_human(p: PlayerView) -> bool {
    p.player_type == PlayerType::Human
}

/// Whether a command is a leave-game command.
pub open spec fn is_leave(c: Command) -> bool {
    c.cmd is LeaveGame
}

/// Whether a command is a leave-game command whose reason is a quit (1 or 6).
pub open spec fn is_quit(c: Command) -> bool {
    match c.cmd {
        CmdType::LeaveGame { reason } => reason == 1 || reason == 6,
        _ => false,
    }
}

/// Whether a command is active gameplay: not a keep-alive, chat, leave or other
/// non-order command.
pub open spec fn is_gameplay(c: Command) -> bool {
    !(c.cmd is KeepAlive || c.cmd is Chat || c.cmd is LeaveGame || c.cmd is Other)
}

/// Whether `id` is the player id of a human player.
pub open spec fn is_human_id(ps: Seq<PlayerView>, id: u8) -> bool {
    exists|i: int| 0 <= i < ps.len() && is_human(ps[i]) && ps[i].player_id == id
}

/// What the leave-game commands decide for player `me`, if anything.  With two
/// human players: the opponent (the first human with another id) decides when
/// exactly one of the two left, or when both left on different frames (the one
/// who left first lost).  With another number of humans: the first quit decides
/// (a loss when it is `me`'s).
pub open spec fn leave_outcome(r: ReplayView, me: u8) -> Option<GameOutcome> {
    let ps = r.players;
    let cmds = r.commands;
    let humans = count_where(ps, |p: PlayerView| is_human(p));
    let has_leave = exists|i: int| 0 <= i < cmds.len() && is_leave(cmds[i]);
    if has_leave && humans == 2 {
        match first_index(ps, |p: PlayerView| is_human(p) && p.player_id != me) {
            None => None,
            Some(oi) => {
                let opp = ps[oi].player_id;
                let mine = first_index(cmds, |c: Command| is_leave(c) && c.player_id == me);
                let theirs = first_index(cmds, |c: Command| is_leave(c) && c.player_id == opp);
                match (mine, theirs) {
                    (Some(_), None) => Some(GameOutcome::Loss),
                    (None, Some(_)) => Some(GameOutcome::Win),
                    (Some(a), Some(b)) => if cmds[a].frame < cmds[b].frame {
                        Some(GameOutcome::Loss)
                    } else if cmds[b].frame < cmds[a].frame {
                        Some(GameOutcome::Win)
                    } else {
                        None
                    },
                    (None, None) => None,
                }
            },
        }
    } else if has_leave {
        match first_index(cmds, |c: Command| is_quit(c)) {
            Some(qi) => Some(
                if cmds[qi].player_id == me {
                    GameOutcome::Loss
                } else {
                    GameOutcome::Win
                },
            ),
            None => None,
        }
    } else {
        None
    }
}

/// What the last gameplay commands decide for player `me` when there are two
/// human players: whoever stopped issuing commands at least 24 frames (about a
/// second) before the other lost.
pub open spec fn activity_outcome(r: ReplayView, me: u8) -> GameOutcome {
    let ps = r.players;
    let cmds = r.commands;
    if count_where(ps, |p: PlayerView| is_human(p)) == 2 {
        let mine = last_index(cmds, |c: Command| c.player_id == me && is_gameplay(c));
        let theirs = last_index(
            cmds,
            |c: Command| c.player_id != me && is_human_id(ps, c.player_id) && is_gameplay(c),
        );
        match (mine, theirs) {
            (Some(a), Some(b)) => if cmds[b].frame + 24 <= cmds[a].frame {
                GameOutcome::Win
            } else if cmds[a].frame + 24 <= cmds[b].frame {
                GameOutcome::Loss
            } else {
                GameOutcome::Undetermined
            },
            _ => GameOutcome::Undetermined,
        }
    } else {
        GameOutcome::Undetermined
    }
}

/// The outcome of a replay for the first player whose lowercased name (from
/// `names_lower`, one per player) contains the lowercased query `query_lower`:
/// not in game when no player matches; otherwise decided by the leave-game
/// commands, or failing that by the players' last activity.
pub open spec fn outcome_with(
    r: ReplayView,
    names_lower: Seq<Seq<char>>,
    query_lower: Seq<char>,
) -> GameOutcome {
    match first_index(names_lower, |n: Seq<char>| contains_seq(n, query_lower)) {
        None => GameOutcome::NotInGame,
        Some(mi) => {
            let me = r.players[mi].player_id;
            match leave_outcome(r, me) {
                Some(o) => o,
                None => activity_outcome(r, me),
            }
        },
    }
}

/// The outcome of a replay for the player whose name contains `name`, both
/// compared lowercased.
pub open spec fn outcome_of(r: ReplayView, name: Seq<char>) -> GameOutcome {
    outcome_with(r, lowered_names(r.players), to_lower(name))
}

fn count_humans(replay: &Replay) -> (r: usize)
    ensures
        r == count_where(replay@.players, |p: PlayerView| is_human(p)),
{
    let ghost ps = replay@.players;
    let mut n: usize = 0;
    let mut i: usize = 0;
    while i < replay.players.len()
        invariant
            i <= replay.players@.len(),
            ps == replay@.players,
            ps.len() == replay.players@.len(),
            n == count_where(ps.take(i as int), |p: PlayerView| is_human(p)),
            n <= i,
        decreases replay.players.len() - i,
    {
        assert(ps.take(i + 1).drop_last() =~= ps.take(i as int));
        if replay.players[i].player_type == PlayerType::Human {
            n = n + 1;
        }
        i = i + 1;
    }
    assert(ps.take(i as int) =~= ps);
    n
}

fn is_human_player_id(replay: &Replay, id: u8) -> (r: bool)
    ensures
        r == is_human_id(replay@.players, id),
{
    let ghost ps = replay@.players;
    let mut i: usize = 0;
    while i < replay.players.len()
        invariant
            i <= replay.players@.len(),
            ps == replay@.players,
            ps.len() == replay.players@.len(),
            forall|j: int| 0 <= j < i ==> !(is_human(ps[j]) && ps[j].player_id == id),
        decreases replay.players.len() - i,
    {
        if replay.players[i].player_type == PlayerType::Human && replay.players[i].player_id == id {
            assert(is_human(ps[i as int]) && ps[i as int].player_id == id);
            return true;
        }
        i = i + 1;
    }
    false
}

fn first_leave_of(commands: &Vec<Command>, who: u8) -> (r: Option<usize>)
    ensures
        match r {
            Some(i) => i < commands@.len() && first_index(
                commands@,
                |c: Command| is_leave(c) && c.player_id == who,
            ) == Some(i as int),
            None => first_index(commands@, |c: Command| is_leave(c) && c.player_id == who)
                == None::<int>,
        },
{
    let mut i: usize = 0;
    while i < commands.len()
        invariant
            i <= commands@.len(),
            forall|j: int| 0 <= j < i ==> !(is_leave(commands@[j]) && commands@[j].player_id == who),
        decreases commands.len() - i,
    {
        let is_leave_cmd = match commands[i].cmd {
            CmdType::LeaveGame { .. } => true,
            _ => false,
        };
        if is_leave_cmd && commands[i].player_id == who {
            proof {
                lemma_first_index(commands@, |c: Command| is_leave(c) && c.player_id == who, i as int);
            }
            return Some(i);
        }
        i = i + 1;
    }
    proof {
        lemma_first_index(commands@, |c: Command| is_leave(c) && c.player_id == who, i as int);
    }
    None
}

fn find_opponent(replay: &Replay, me: u8) -> (r: Option<usize>)
    ensures
        match r {
            Some(k) => k < replay.players@.len() && first_index(
                replay@.players,
                |p: PlayerView| is_human(p) && p.player_id != me,
            ) == Some(k as int),
            None => first_index(replay@.players, |p: PlayerView| is_human(p) && p.player_id != me)
                == None::<int>,
        },
{
    let ghost ps = replay@.players;
    let mut k: usize = 0;
    while k < replay.players.len()
        invariant
            k <= replay.players@.len(),
            ps == replay@.players,
            ps.len() == replay.players@.len(),
            forall|j: int| 0 <= j < k ==> !(is_human(ps[j]) && ps[j].player_id != me),
        decreases replay.players.len() - k,
    {
        assert(ps[k as int] == replay.players@[k as int]@);
        if replay.players[k].player_type == PlayerType::Human && replay.players[k].player_id != me {
            proof {
                lemma_first_index(ps, |p: PlayerView| is_human(p) && p.player_id != me, k as int);
            }
            return Some(k);
        }
        k = k + 1;
    }
    proof {
        lemma_first_index(ps, |p: PlayerView| is_human(p) && p.player_id != me, k as int);
    }
    None
}

fn find_quit(commands: &Vec<Command>) -> (r: Option<usize>)
    ensures
        match r {
            Some(i) => i < commands@.len() && first_index(commands@, |c: Command| is_quit(c))
                == Some(i as int),
            None => first_index(commands@, |c: Command| is_quit(c)) == None::<int>,
        },
{
    let mut i: usize = 0;
    while i < commands.len()
        invariant
            i <= commands@.len(),
            forall|j: int| 0 <= j < i ==> !(is_quit(commands@[j])),
        decreases commands.len() - i,
    {
        let quit = match commands[i].cmd {
            CmdType::LeaveGame { reason } => reason == 1 || reason == 6,
            _ => false,
        };
        if quit {
            proof {
                lemma_first_index(commands@, |c: Command| is_quit(c), i as int);
            }
            return Some(i);
        }
        i = i + 1;
    }
    proof {
        lemma_first_index(commands@, |c: Command| is_quit(c), i as int);
    }
    None
}

fn leave_result(replay: &Replay, me: u8, humans: usize) -> (r: Option<GameOutcome>)
    requires
        humans == count_where(replay@.players, |p: PlayerView| is_human(p)),
    ensures
        r == leave_outcome(replay@, me),
{
    let ghost cmds = replay@.commands;
    let mut has_leave = false;
    let mut i: usize = 0;
    while i < replay.commands.len()
        invariant
            i <= replay.commands@.len(),
            cmds == replay.commands@,
            has_leave == exists|j: int| 0 <= j < i && is_leave(cmds[j]),
        decreases replay.commands.len() - i,
    {
        match replay.commands[i].cmd {
            CmdType::LeaveGame { .. } => {
                has_leave = true;
            },
            _ => {},
        }
        i = i + 1;
    }
    if has_leave && humans == 2 {
        let k = match find_opponent(replay, me) {
            Some(k) => k,
            None => {
                return None;
            },
        };
        let opp = replay.players[k].player_id;
        assert(replay@.players[k as int].player_id == opp);
        let mine = first_leave_of(&replay.commands, me);
        let theirs = first_leave_of(&replay.commands, opp);
        match (mine, theirs) {
            (Some(_), None) => Some(GameOutcome::Loss),
            (None, Some(_)) => Some(GameOutcome::Win),
            (Some(a), Some(b)) => {
                if replay.commands[a].frame < replay.commands[b].frame {
                    Some(GameOutcome::Loss)
                } else if replay.commands[b].frame < replay.commands[a].frame {
                    Some(GameOutcome::Win)
                } else {
                    None
                }
            },
            (None, None) => None,
        }
    } else if has_leave {
        match find_quit(&replay.commands) {
            None => None,
            Some(q) => {
                if replay.commands[q].player_id == me {
                    Some(GameOutcome::Loss)
                } else {
                    Some(GameOutcome::Win)
                }
            },
        }
    } else {
        None
    }
}

fn gameplay(c: &Command) -> (r: bool)
    ensures
        r == is_gameplay(*c),
{
    match c.cmd {
        CmdType::KeepAlive | CmdType::Chat { .. } | CmdType::LeaveGame { .. }
        | CmdType::Other { .. } => false,
        _ => true,
    }
}

fn last_own_gameplay(replay: &Replay, me: u8) -> (r: Option<usize>)
    ensures
        match r {
            Some(i) => i < replay.commands@.len() && last_index(
                replay@.commands,
                |c: Command| c.player_id == me && is_gameplay(c),
            ) == Some(i as int),
            None => last_index(replay@.commands, |c: Command| c.player_id == me && is_gameplay(c))
                == None::<int>,
        },
{
    let ghost cmds = replay@.commands;
    let n = replay.commands.len();
    let mut a: usize = n;
    while a > 0
        invariant
            a <= n,
            n == cmds.len(),
            cmds == replay.commands@,
            forall|j: int| a <= j < n ==> !(cmds[j].player_id == me && is_gameplay(cmds[j])),
        decreases a,
    {
        let c = &replay.commands[a - 1];
        if c.player_id == me && gameplay(c) {
            proof {
                lemma_last_index(cmds, |c: Command| c.player_id == me && is_gameplay(c), a - 1);
            }
            return Some(a - 1);
        }
        a = a - 1;
    }
    proof {
        lemma_last_index(cmds, |c: Command| c.player_id == me && is_gameplay(c), -1);
    }
    None
}

fn last_opponent_gameplay(replay: &Replay, me: u8) -> (r: Option<usize>)
    ensures
        match r {
            Some(i) => i < replay.commands@.len() && last_index(
                replay@.commands,
                |c: Command|
                    c.player_id != me && is_human_id(replay@.players, c.player_id) && is_gameplay(
                        c,
                    ),
            ) == Some(i as int),
            None => last_index(
                replay@.commands,
                |c: Command|
                    c.player_id != me && is_human_id(replay@.players, c.player_id) && is_gameplay(
                        c,
                    ),
            ) == None::<int>,
        },
{
    let ghost ps = replay@.players;
    let ghost cmds = replay@.commands;
    let n = replay.commands.len();
    let mut b: usize = n;
    while b > 0
        invariant
            b <= n,
            n == cmds.len(),
            cmds == replay.commands@,
            ps == replay@.players,
            forall|j: int|
                b <= j < n ==> !(cmds[j].player_id != me && is_human_id(ps, cmds[j].player_id)
                    && is_gameplay(cmds[j])),
        decreases b,
    {
        let c = &replay.commands[b - 1];
        if c.player_id != me && is_human_player_id(replay, c.player_id) && gameplay(c) {
            proof {
                lemma_last_index(cmds, |c: Command|
        c.player_id != me && is_human_id(ps, c.player_id) && is_gameplay(c), b - 1);
            }
            return Some(b - 1);
        }
        b = b - 1;
    }
    proof {
        lemma_last_index(cmds, |c: Command|
        c.player_id != me && is_human_id(ps, c.player_id) && is_gameplay(c), -1);
    }
    None
}

fn activity_result(replay: &Replay, me: u8, humans: usize) -> (r: GameOutcome)
    requires
        humans == count_where(replay@.players, |p: PlayerView| is_human(p)),
    ensures
        r == activity_outcome(replay@, me),
{
    if humans != 2 {
        return GameOutcome::Undetermined;
    }
    match (last_own_gameplay(replay, me), last_opponent_gameplay(replay, me)) {
        (Some(a), Some(b)) => {
            let my_frame = replay.commands[a].frame;
            let opp_frame = replay.commands[b].frame;
            if opp_frame as u64 + 24 <= my_frame as u64 {
                GameOutcome::Win
            } else if my_frame as u64 + 24 <= opp_frame as u64 {
                GameOutcome::Loss
            } else {
                GameOutcome::Undetermined
            }
        },
        _ => GameOutcome::Undetermined,
    }
}

fn find_named(names_lower: &Vec<String>, query_lower: &str) -> (r: Option<usize>)
    ensures
        match r {
            Some(i) => i < names_lower@.len() && first_index(
                strings_view(names_lower@),
                |n: Seq<char>| contains_seq(n, query_lower@),
            ) == Some(i as int),
            None => first_index(
                strings_view(names_lower@),
                |n: Seq<char>| contains_seq(n, query_lower@),
            ) == None::<int>,
        },
{
    let ghost names = strings_view(names_lower@);
    let mut i: usize = 0;
    while i < names_lower.len()
        invariant
            i <= names_lower@.len(),
            names == strings_view(names_lower@),
            names.len() == names_lower@.len(),
            forall|j: int| 0 <= j < i ==> !contains_seq(#[trigger] names[j], query_lower@),
        decreases names_lower.len() - i,
    {
        assert(names[i as int] == names_lower@[i as int]@);
        if contains_text(names_lower[i].as_str(), query_lower) {
            proof {
                lemma_first_index(names, |n: Seq<char>| contains_seq(n, query_lower@), i as int);
            }
            return Some(i);
        }
        i = i + 1;
    }
    proof {
        lemma_first_index(names, |n: Seq<char>| contains_seq(n, query_lower@), i as int);
    }
    None
}

/// Decides the outcome of a replay for the first player whose lowercased name
/// (given in `names_lower`, one per player) contains `query_lower`.
pub fn outcome_for_lowered(replay: &Replay, names_lower: &Vec<String>, query_lower: &str) -> (r:
    GameOutcome)
    requires
        names_lower@.len() == replay.players@.len(),
    ensures
        r == outcome_with(replay@, strings_view(names_lower@), query_lower@),
{
    let i = match find_named(names_lower, query_lower) {
        Some(i) => i,
        None => {
            return GameOutcome::NotInGame;
        },
    };
    let me = replay.players[i].player_id;
    assert(replay@.players[i as int].player_id == me);
    let humans = count_humans(replay);
    match leave_result(replay, me, humans) {
        Some(o) => o,
        None => activity_result(replay, me, humans),
    }
}

/// Decides the outcome of a replay for the player whose name contains
/// `player_name`, both compared lowercased.
pub fn game_outcome(replay: &Replay, player_name: &str) -> (r: GameOutcome)
    ensures
        r == outcome_of(replay@, player_name@),
{
    let ghost ps = replay@.players;
    let mut names: Vec<String> = Vec::new();
    let mut i: usize = 0;
    while i < replay.players.len()
        invariant
            i <= replay.players@.len(),
            ps == replay@.players,
            ps.len() == replay.players@.len(),
            strings_view(names@) == lowered_names(ps).take(i as int),
        decreases replay.players.len() - i,
    {
        assert(ps[i as int] == replay.players@[i as int]@);
        let n = lowercase(replay.players[i].name.as_str());
        let ghost before = names@;
        names.push(n);
        assert(strings_view(names@) =~= strings_view(before).push(n@));
        i = i + 1;
        assert(strings_view(names@) =~= lowered_names(ps).take(i as int));
    }
    assert(lowered_names(ps).take(i as int) =~= lowered_names(ps));
    let query = lowercase(player_name);
    outcome_for_lowered(replay, &names, query.as_str())
}

/// Decides whether the player whose name contains `player_name` won the replay:
/// `Win`, `Loss`, `Not in game` or `Undetermined`.
pub fn determine_result(replay: &Replay, player_name: &str) -> (r: String)
    ensures
        r@ == outcome_label(outcome_of(replay@, player_name@)),
{
    game_outcome(replay, player_name).label()
}


/// The outcome text of a library entry: `Win` or `Loss` as decided for the
/// configured player name, and `Undetermined` when no name (or an empty one) is
/// configured, when no player of the replay goes by that name, or when the
/// replay does not decide.
pub open spec fn entry_result(r: ReplayView, player_name: Option<Seq<char>>) -> Seq<char> {
    match player_name {
        Some(n) => if n.len() > 0 {
            match outcome_of(r, n) {
                GameOutcome::Win => "Win"@,
                GameOutcome::Loss => "Loss"@,
                _ => "Undetermined"@,
            }
        } else {
            "Undetermined"@
        },
        None => "Undetermined"@,
    }
}

/// The outcome text of a library entry for the configured player name, if any.
pub fn replay_result(replay: &Replay, player_name: Option<&str>) -> (r: String)
    ensures
        r@ == entry_result(
            replay@,
            match player_name {
                Some(n) => Some(n@),
                None => None,
            },
        ),
{
    match player_name {
        Some(name) => {
            if name.unicode_len() > 0 {
                match game_outcome(replay, name) {
                    GameOutcome::Win => String::from_str("Win"),
                    GameOutcome::Loss => String::from_str("Loss"),
                    _ => String::from_str("Undetermined"),
                }
            } else {
                String::from_str("Undetermined")
            }
        },
        None => String::from_str("Undetermined"),
    }
}

/// Whether entry `a` is listed before entry `b`: it is newer, or as new and
/// earlier in scan order.
pub open spec fn listed_before(ts: Seq<i64>, a: int, b: int) -> bool {
    ts[a] > ts[b] || (ts[a] == ts[b] && a < b)
}

/// Whether `order` lists every index of `ts` exactly once, newest first, and
/// entries with equal timestamps in scan order.
pub open spec fn newest_first_order(ts: Seq<i64>, order: Seq<usize>) -> bool {
    &&& order.len() == ts.len()
    &&& forall|k: int| 0 <= k < order.len() ==> #[trigger] order[k] < ts.len()
    &&& forall|k: int, l: int| 0 <= k < l < order.len() ==> listed_before(
        ts,
        #[trigger] order[k] as int,
        #[trigger] order[l] as int,
    )
}

/// A listing in newest-first order lists each entry at most once.
pub proof fn listing_has_no_repeats(ts: Seq<i64>, order: Seq<usize>)
    requires
        newest_first_order(ts, order),
    ensures
        forall|k: int, l: int| 0 <= k < l < order.len() ==> order[k] != order[l],
{
    assert forall|k: int, l: int| 0 <= k < l < order.len() implies order[k] != order[l] by {
        assert(listed_before(ts, order[k] as int, order[l] as int));
    }
}

/// The listing order of library entries with the given timestamps: newest first,
/// entries with equal timestamps in scan order (a stable sort).
pub fn newest_first(timestamps: &Vec<i64>) -> (r: Vec<usize>)
    ensures
        newest_first_order(timestamps@, r@),
{
    let ghost ts = timestamps@;
    let mut order: Vec<usize> = Vec::new();
    let mut i: usize = 0;
    while i < timestamps.len()
        invariant
            ts == timestamps@,
            i <= ts.len(),
            order@.len() == i,
            forall|k: int| 0 <= k < order@.len() ==> #[trigger] order@[k] < i,
            forall|k: int, l: int| 0 <= k < l < order@.len() ==> listed_before(
                ts,
                #[trigger] order@[k] as int,
                #[trigger] order@[l] as int,
            ),
        decreases ts.len() - i,
    {
        let t = timestamps[i];
        let mut p: usize = 0;
        while p < order.len() && timestamps[order[p]] >= t
            invariant
                ts == timestamps@,
                i < ts.len(),
                t == ts[i as int],
                p <= order@.len(),
                order@.len() == i,
                forall|k: int| 0 <= k < order@.len() ==> #[trigger] order@[k] < i,
                forall|k: int| 0 <= k < p ==> ts[#[trigger] order@[k] as int] >= t,
            decreases order.len() - p,
        {
            p = p + 1;
        }
        let ghost old_order = order@;
        proof {
            if p < old_order.len() {
                assert forall|l: int| p <= l < old_order.len() implies ts[
                    #[trigger] old_order[l] as int] < t by {
                    if l > p {
                        assert(listed_before(ts, old_order[p as int] as int, old_order[l] as int));
                    }
                }
            }
        }
        order.insert(p, i);
        assert forall|k: int| 0 <= k < order@.len() implies #[trigger] order@[k] < i + 1 by {
            if k < p {
                assert(order@[k] == old_order[k]);
            } else if k > p {
                assert(order@[k] == old_order[k - 1]);
            }
        }
        assert forall|k: int, l: int| 0 <= k < l < order@.len() implies listed_before(
            ts,
            #[trigger] order@[k] as int,
            #[trigger] order@[l] as int,
        ) by {
            if k < p && l < p {
                assert(order@[k] == old_order[k] && order@[l] == old_order[l]);
            } else if k < p && l == p {
                assert(order@[k] == old_order[k]);
                assert(ts[old_order[k] as int] >= t);
            } else if k < p && l > p {
                assert(order@[k] == old_order[k] && order@[l] == old_order[l - 1]);
            } else if k == p {
                assert(order@[l] == old_order[l - 1]);
                assert(ts[old_order[l - 1] as int] < t);
            } else {
                assert(order@[k] == old_order[k - 1] && order@[l] == old_order[l - 1]);
            }
        }
        i = i + 1;
    }
    order
}


/// The text chrono gives for the UTC time `timestamp` (seconds since the Unix
/// epoch) in the format `%Y-%m-%d %H:%M`, or `None` where the timestamp is out of
/// chrono's range.
pub uninterp spec fn utc_minute_text(timestamp: i64) -> Option<Seq<char>>;

/// Formats a Unix timestamp with `chrono::DateTime::from_timestamp` and
/// `format("%Y-%m-%d %H:%M")`.  Claimed: the result is `utc_minute_text(timestamp)`,
/// a function of the timestamp alone (UTC, so no time zone is involved).
#[verifier::external_body]
fn utc_minute_string(timestamp: i64) -> (r: Option<String>)
    ensures
        match r {
            Some(s) => utc_minute_text(timestamp) == Some(s@),
            None => utc_minute_text(timestamp) == None::<Seq<char>>,
        },
{
    match chrono::DateTime::from_timestamp(timestamp, 0) {
        Some(d) => Some(d.format("%Y-%m-%d %H:%M").to_string()),
        None => None,
    }
}

/// The date shown for a formatted timestamp: the text, or `Unknown` when the
/// timestamp could not be formatted.
pub open spec fn date_text(formatted: Option<Seq<char>>) -> Seq<char> {
    match formatted {
        Some(s) => s,
        None => "Unknown"@,
    }
}

/// The date shown for a formatted timestamp, or `Unknown`.
pub fn date_label(formatted: Option<String>) -> (r: String)
    ensures
        r@ == date_text(
            match formatted {
                Some(s) => Some(s@),
                None => None,
            },
        ),
{
    match formatted {
        Some(s) => s,
        None => String::from_str("Unknown"),
    }
}

/// Formats a replay's timestamp as a UTC date and time (`YYYY-MM-DD HH:MM`), or
/// `Unknown` when out of range.
pub fn format_date(timestamp: i64) -> (r: String)
    ensures
        r@ == date_text(utc_minute_text(timestamp)),
{
    date_label(utc_minute_string(timestamp))
}


proof fn lemma_first_index_found<T>(s: Seq<T>, pred: spec_fn(T) -> bool)
    ensures
        first_index(s, pred) matches Some(i) ==> 0 <= i < s.len() && pred(s[i]),
        first_index(s, pred) is None ==> forall|j: int| 0 <= j < s.len() ==> !pred(#[trigger] s[j]),
    decreases s.len(),
{
    if s.len() > 0 && !pred(s[0]) {
        lemma_first_index_found(s.drop_first(), pred);
        if first_index(s, pred) is None {
            assert forall|j: int| 0 <= j < s.len() implies !pred(#[trigger] s[j]) by {
                if j > 0 {
                    assert(s[j] == s.drop_first()[j - 1]);
                }
            }
        }
    }
}

/// Win and loss swapped.
pub open spec fn mirrored(o: GameOutcome) -> GameOutcome {
    match o {
        GameOutcome::Win => GameOutcome::Loss,
        GameOutcome::Loss => GameOutcome::Win,
        _ => o,
    }
}

/// In a game between two human players with distinct player ids `a` and `b`,
/// what the replay decides for one of them is the mirror image of what it
/// decides for the other: when one wins, the other loses.
pub proof fn outcomes_are_mirrored(r: ReplayView, a: u8, b: u8)
    requires
        a != b,
        count_where(r.players, |p: PlayerView| is_human(p)) == 2,
        forall|i: int|
            0 <= i < r.players.len() && is_human(#[trigger] r.players[i]) ==> r.players[i].player_id
                == a || r.players[i].player_id == b,
        is_human_id(r.players, a),
        is_human_id(r.players, b),
    ensures
        leave_outcome(r, a) == match leave_outcome(r, b) {
            Some(o) => Some(mirrored(o)),
            None => None,
        },
        activity_outcome(r, a) == mirrored(activity_outcome(r, b)),
{
    let ps = r.players;
    let cmds = r.commands;
    let opp_of_a = |p: PlayerView| is_human(p) && p.player_id != a;
    let opp_of_b = |p: PlayerView| is_human(p) && p.player_id != b;
    lemma_first_index_found(ps, opp_of_a);
    lemma_first_index_found(ps, opp_of_b);
    let ib = choose|i: int| 0 <= i < ps.len() && is_human(ps[i]) && ps[i].player_id == b;
    let ia = choose|i: int| 0 <= i < ps.len() && is_human(ps[i]) && ps[i].player_id == a;
    assert(opp_of_a(ps[ib]));
    assert(opp_of_b(ps[ia]));
    let oa = first_index(ps, opp_of_a)->Some_0;
    let ob = first_index(ps, opp_of_b)->Some_0;
    assert(ps[oa].player_id == b);
    assert(ps[ob].player_id == a);
    let leave_a = |c: Command| is_leave(c) && c.player_id == a;
    let leave_b = |c: Command| is_leave(c) && c.player_id == b;
    assert((|c: Command| is_leave(c) && c.player_id == ps[oa].player_id) =~= leave_b);
    assert((|c: Command| is_leave(c) && c.player_id == ps[ob].player_id) =~= leave_a);
    assert forall|x: u8| is_human_id(ps, x) <==> (x == a || x == b) by {
        if x == a {
            assert(is_human(ps[ia]) && ps[ia].player_id == x);
        } else if x == b {
            assert(is_human(ps[ib]) && ps[ib].player_id == x);
        }
    }
    assert((|c: Command| c.player_id != a && is_human_id(ps, c.player_id) && is_gameplay(c))
        =~= (|c: Command| c.player_id == b && is_gameplay(c)));
    assert((|c: Command| c.player_id != b && is_human_id(ps, c.player_id) && is_gameplay(c))
        =~= (|c: Command| c.player_id == a && is_gameplay(c)));
}

proof fn lemma_last_index_found<T>(s: Seq<T>, pred: spec_fn(T) -> bool)
    ensures
        last_index(s, pred) matches Some(i) ==> 0 <= i < s.len() && pred(s[i]) && forall|j: int|
            i < j < s.len() ==> !pred(#[trigger] s[j]),
        last_index(s, pred) is None ==> forall|j: int| 0 <= j < s.len() ==> !pred(#[trigger] s[j]),
    decreases s.len(),
{
    if s.len() > 0 && !pred(s.last()) {
        lemma_last_index_found(s.drop_last(), pred);
        assert forall|j: int| 0 <= j < s.len() - 1 implies #[trigger] s[j] == s.drop_last()[j] by {}
    }
}

/// Whether a command is an order of any kind: anything but a keep-alive, a chat
/// message, a leave or an unrecognised command.
pub open spec fn is_order(c: Command) -> bool {
    match c.cmd {
        CmdType::KeepAlive => false,
        CmdType::Chat { .. } => false,
        CmdType::LeaveGame { .. } => false,
        CmdType::Other { .. } => false,
        _ => true,
    }
}

/// The conditions shared by the activity laws: the name picks player `mi`, two
/// human players, no leave commands, commands in frame order.
pub open spec fn activity_setting(r: ReplayView, name: Seq<char>, mi: int) -> bool {
    &&& first_index(lowered_names(r.players), |n: Seq<char>| contains_seq(n, to_lower(name)))
        == Some(mi)
    &&& count_where(r.players, |p: PlayerView| is_human(p)) == 2
    &&& forall|k: int| 0 <= k < r.commands.len() ==> !((#[trigger] r.commands[k]).cmd is LeaveGame)
    &&& forall|k: int, l: int|
        0 <= k < l < r.commands.len() ==> (#[trigger] r.commands[k]).frame <= (
        #[trigger] r.commands[l]).frame
}

/// In a game of two humans without leave commands, when the other human gives an
/// order of any kind (say a right-click) 24 or more frames after each of my
/// orders, and I gave at least one order, I stopped first: the replay is a Loss
/// for me.  Keep-alives, chat and unrecognised commands are not orders.
pub proof fn later_opponent_order_means_loss(r: ReplayView, name: Seq<char>, mi: int, j: int)
    requires
        activity_setting(r, name, mi),
        0 <= j < r.commands.len(),
        is_human_id(r.players, r.commands[j].player_id),
        r.commands[j].player_id != r.players[mi].player_id,
        is_order(r.commands[j]),
        exists|k: int|
            0 <= k < r.commands.len() && (#[trigger] r.commands[k]).player_id
                == r.players[mi].player_id && is_order(r.commands[k]),
        forall|k: int|
            0 <= k < r.commands.len() && (#[trigger] r.commands[k]).player_id
                == r.players[mi].player_id && is_order(r.commands[k]) ==> r.commands[k].frame + 24
                <= r.commands[j].frame,
    ensures
        outcome_of(r, name) == GameOutcome::Loss,
{
    let ps = r.players;
    let cmds = r.commands;
    let names = lowered_names(ps);
    lemma_first_index_found(names, |n: Seq<char>| contains_seq(n, to_lower(name)));
    let me = ps[mi].player_id;
    assert(!(exists|i: int| 0 <= i < cmds.len() && is_leave(cmds[i])));
    let own = |c: Command| c.player_id == me && is_gameplay(c);
    let theirs = |c: Command| c.player_id != me && is_human_id(ps, c.player_id) && is_gameplay(c);
    lemma_last_index_found(cmds, own);
    lemma_last_index_found(cmds, theirs);
    let k0 = choose|k: int|
        0 <= k < cmds.len() && (#[trigger] cmds[k]).player_id == me && is_order(cmds[k]);
    assert(own(cmds[k0]));
    assert(theirs(cmds[j]));
    let a = last_index(cmds, own)->Some_0;
    let b = last_index(cmds, theirs)->Some_0;
    assert(is_order(cmds[a]));
    assert(b >= j);
    assert(cmds[j].frame <= cmds[b].frame);
}

/// In a game of two humans without leave commands, when I give an order of any
/// kind 24 or more frames after each order of the other human, who gave at least
/// one, the other human stopped first: the replay is a Win for me.
pub proof fn later_own_order_means_win(r: ReplayView, name: Seq<char>, mi: int, j: int)
    requires
        activity_setting(r, name, mi),
        0 <= j < r.commands.len(),
        r.commands[j].player_id == r.players[mi].player_id,
        is_order(r.commands[j]),
        exists|k: int|
            0 <= k < r.commands.len() && (#[trigger] r.commands[k]).player_id
                != r.players[mi].player_id && is_human_id(r.players, r.commands[k].player_id)
                && is_order(r.commands[k]),
        forall|k: int|
            0 <= k < r.commands.len() && (#[trigger] r.commands[k]).player_id
                != r.players[mi].player_id && is_human_id(r.players, r.commands[k].player_id)
                && is_order(r.commands[k]) ==> r.commands[k].frame + 24 <= r.commands[j].frame,
    ensures
        outcome_of(r, name) == GameOutcome::Win,
{
    let ps = r.players;
    let cmds = r.commands;
    let names = lowered_names(ps);
    lemma_first_index_found(names, |n: Seq<char>| contains_seq(n, to_lower(name)));
    let me = ps[mi].player_id;
    assert(!(exists|i: int| 0 <= i < cmds.len() && is_leave(cmds[i])));
    let own = |c: Command| c.player_id == me && is_gameplay(c);
    let theirs = |c: Command| c.player_id != me && is_human_id(ps, c.player_id) && is_gameplay(c);
    lemma_last_index_found(cmds, own);
    lemma_last_index_found(cmds, theirs);
    let k0 = choose|k: int|
        0 <= k < cmds.len() && (#[trigger] cmds[k]).player_id != me && is_human_id(
            ps,
            cmds[k].player_id,
        ) && is_order(cmds[k]);
    assert(theirs(cmds[k0]));
    assert(own(cmds[j]));
    let a = last_index(cmds, own)->Some_0;
    let b = last_index(cmds, theirs)->Some_0;
    assert(is_order(cmds[b]));
    assert(a >= j);
    assert(cmds[j].frame <= cmds[a].frame);
}

} // verus!
