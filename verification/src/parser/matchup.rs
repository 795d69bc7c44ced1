//! The matchup string of a replay, such as `TvP` or `PZvTT`.
use super::{race_letter, Player, PlayerView};
use crate::text::{push_char, push_repeat, repeat};
use vstd::prelude::*;

verus! {

/// Whether some player is on team `t`.
pub open spec fn has_team(ps: Seq<PlayerView>, t: u8) -> bool {
    exists|i: int| 0 <= i < ps.len() && ps[i].team == t
}

/// The teams below `t` that some player is on, in ascending order.
pub open spec fn teams_below(ps: Seq<PlayerView>, t: int) -> Seq<u8>
    decreases t,
{
    if t <= 0 {
        seq![]
    } else if has_team(ps, (t - 1) as u8) {
        teams_below(ps, t - 1).push((t - 1) as u8)
    } else {
        teams_below(ps, t - 1)
    }
}

/// The distinct teams of the players, in ascending order.
pub open spec fn team_ids(ps: Seq<PlayerView>) -> Seq<u8> {
    teams_below(ps, 256)
}

/// The parts joined with a `v` between each two.
pub open spec fn join_v(parts: Seq<Seq<char>>) -> Seq<char>
    decreases parts.len(),
{
    if parts.len() == 0 {
        seq![]
    } else if parts.len() == 1 {
        parts[0]
    } else {
        join_v(parts.drop_last()) + seq!['v'] + parts.last()
    }
}

/// The number of players on team `t` whose race letter is `c`.
pub open spec fn count_letter(ps: Seq<PlayerView>, t: u8, c: char) -> nat
    decreases ps.len(),
{
    if ps.len() == 0 {
        0
    } else {
        count_letter(ps.drop_last(), t, c) + if ps.last().team == t && race_letter(ps.last().race)
            == c {
            1nat
        } else {
            0nat
        }
    }
}

/// The race letters of the players on team `t`, in sorted order
/// (`?` before `P` before `T` before `Z`).
pub open spec fn team_part(ps: Seq<PlayerView>, t: u8) -> Seq<char> {
    repeat('?', count_letter(ps, t, '?')) + repeat('P', count_letter(ps, t, 'P')) + repeat(
        'T',
        count_letter(ps, t, 'T'),
    ) + repeat('Z', count_letter(ps, t, 'Z'))
}

/// The matchup of a player list.  With one team, or with every player on a team
/// of their own, it is the race letters in player order joined by `v`; otherwise
/// it is, for each team in ascending order, the team's sorted race letters,
/// joined by `v`.  No players give the empty string.
pub open spec fn matchup_of(ps: Seq<PlayerView>) -> Seq<char> {
    if ps.len() == 0 {
        seq![]
    } else if team_ids(ps).len() == 1 || team_ids(ps).len() == ps.len() {
        join_v(ps.map_values(|p: PlayerView| seq![race_letter(p.race)]))
    } else {
        join_v(team_ids(ps).map_values(|t: u8| team_part(ps, t)))
    }
}

proof fn lemma_join_step(parts: Seq<Seq<char>>, i: int)
    requires
        0 <= i < parts.len(),
    ensures
        join_v(parts.take(i + 1)) == if i == 0 {
            parts[0]
        } else {
            join_v(parts.take(i)) + seq!['v'] + parts[i]
        },
{
    if i > 0 {
        assert(parts.take(i + 1).drop_last() =~= parts.take(i));
    }
}

fn letter_of(p: &Player) -> (c: char)
    ensures
        c == race_letter(p.race),
{
    match p.race {
        super::Race::Zerg => 'Z',
        super::Race::Terran => 'T',
        super::Race::Protoss => 'P',
        super::Race::Unknown(_) => '?',
    }
}

fn any_on_team(players: &[Player], t: u8) -> (r: bool)
    ensures
        r == has_team(super::players_view(players@), t),
{
    let ghost ps = super::players_view(players@);
    let mut i: usize = 0;
    while i < players.len()
        invariant
            i <= players@.len(),
            ps == super::players_view(players@),
            forall|j: int| 0 <= j < i ==> ps[j].team != t,
        decreases players.len() - i,
    {
        if players[i].team == t {
            assert(ps[i as int].team == t);
            return true;
        }
        i = i + 1;
    }
    false
}

fn push_team_part(out: &mut String, players: &[Player], t: u8)
    ensures
        final(out)@ == old(out)@ + team_part(super::players_view(players@), t),
{
    let ghost ps = super::players_view(players@);
    let mut unknown: usize = 0;
    let mut protoss: usize = 0;
    let mut terran: usize = 0;
    let mut zerg: usize = 0;
    let mut i: usize = 0;
    while i < players.len()
        invariant
            i <= players@.len(),
            ps == super::players_view(players@),
            unknown == count_letter(ps.take(i as int), t, '?'),
            protoss == count_letter(ps.take(i as int), t, 'P'),
            terran == count_letter(ps.take(i as int), t, 'T'),
            zerg == count_letter(ps.take(i as int), t, 'Z'),
            unknown <= i,
            protoss <= i,
            terran <= i,
            zerg <= i,
        decreases players.len() - i,
    {
        assert(ps.take(i + 1).drop_last() =~= ps.take(i as int));
        if players[i].team == t {
            let c = letter_of(&players[i]);
            if c == '?' {
                unknown = unknown + 1;
            } else if c == 'P' {
                protoss = protoss + 1;
            } else if c == 'T' {
                terran = terran + 1;
            } else {
                zerg = zerg + 1;
            }
        }
        i = i + 1;
    }
    assert(ps.take(i as int) =~= ps);
    push_repeat(out, '?', unknown);
    push_repeat(out, 'P', protoss);
    push_repeat(out, 'T', terran);
    push_repeat(out, 'Z', zerg);
    assert(out@ =~= old(out)@ + team_part(ps, t));
}

/// Builds the matchup string of a player list.
pub fn build_matchup(players: &[Player]) -> (r: String)
    ensures
        r@ == matchup_of(super::players_view(players@)),
{
    let ghost ps = super::players_view(players@);
    if players.len() == 0 {
        return String::new();
    }
    let mut teams: Vec<u8> = Vec::new();
    let mut t: u16 = 0;
    while t < 256
        invariant
            t <= 256,
            ps == super::players_view(players@),
            teams@ == teams_below(ps, t as int),
            teams@.len() <= t,
        decreases 256 - t,
    {
        if any_on_team(players, t as u8) {
            teams.push(t as u8);
        }
        t = t + 1;
    }
    let mut out = String::new();
    if teams.len() == 1 || teams.len() == players.len() {
        let ghost parts = ps.map_values(|p: PlayerView| seq![race_letter(p.race)]);
        let mut i: usize = 0;
        while i < players.len()
            invariant
                i <= players@.len(),
                ps == super::players_view(players@),
                parts == ps.map_values(|p: PlayerView| seq![race_letter(p.race)]),
                out@ == join_v(parts.take(i as int)),
            decreases players.len() - i,
        {
            proof {
                lemma_join_step(parts, i as int);
            }
            if i > 0 {
                push_char(&mut out, 'v');
            }
            push_char(&mut out, letter_of(&players[i]));
            i = i + 1;
            assert(out@ =~= join_v(parts.take(i as int)));
        }
        assert(parts.take(i as int) =~= parts);
        out
    } else {
        let ghost parts = teams@.map_values(|t: u8| team_part(ps, t));
        let mut k: usize = 0;
        while k < teams.len()
            invariant
                k <= teams@.len(),
                ps == super::players_view(players@),
                teams@ == team_ids(ps),
                parts == teams@.map_values(|t: u8| team_part(ps, t)),
                out@ == join_v(parts.take(k as int)),
            decreases teams.len() - k,
        {
            proof {
                lemma_join_step(parts, k as int);
            }
            if k > 0 {
                push_char(&mut out, 'v');
            }
            push_team_part(&mut out, players, teams[k]);
            k = k + 1;
            assert(out@ =~= join_v(parts.take(k as int)));
        }
        assert(parts.take(k as int) =~= parts);
        out
    }
}

} // verus!
