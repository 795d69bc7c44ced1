//! Replay re-simulation results: sampling of game state while the simulator
//! runs, and the curves and army compositions read from the samples.
use crate::library::{count_where, first_index};
use crate::openbw::{FrameState, FrameStateView, PlayerState, Unit};
use crate::parser::{extract_raw_sections, raw_sections, error_message, ReplayError};
use vstd::prelude::*;

verus! {

/// How often to sample full game state by default (every 24 frames, about one
/// sample per second).
pub const DEFAULT_SAMPLE_INTERVAL: u32 = 24;

/// Configuration for a simulation run.
pub struct SimConfig {
    /// How many frames between state snapshots.
    pub sample_interval: u32,
}

impl Default for SimConfig {
    fn default() -> (r: SimConfig)
        ensures
            r.sample_interval == DEFAULT_SAMPLE_INTERVAL,
    {
        SimConfig { sample_interval: DEFAULT_SAMPLE_INTERVAL }
    }
}

/// Whether the state on `frame` is sampled: every `sample_interval` frames.
pub fn wants_snapshot(frame: u32, config: &SimConfig) -> (r: bool)
    requires
        config.sample_interval > 0,
    ensures
        r == (frame % config.sample_interval == 0),
{
    frame % config.sample_interval == 0
}

/// Result of a full replay simulation.
#[derive(Debug)]
pub struct SimulationResult {
    /// Total frames simulated.
    pub total_frames: u32,
    /// Sampled frame states at the configured interval.
    pub snapshots: Vec<FrameState>,
    /// Final game state at the last frame.
    pub final_state: FrameState,
}

/// The abstract values of a sequence of snapshots.
pub open spec fn snapshots_view(s: Seq<FrameState>) -> Seq<FrameStateView> {
    s.map_values(|f: FrameState| f@)
}

/// The samples of a finished simulation: the samples taken, followed by the final
/// state unless the last sample already is of the final frame.
pub open spec fn finished_samples(
    samples: Seq<FrameStateView>,
    final_state: FrameStateView,
    total_frames: u32,
) -> Seq<FrameStateView> {
    if samples.len() > 0 && samples.last().frame == total_frames {
        samples
    } else {
        samples.push(final_state)
    }
}

/// Assembles the result of a simulation that ran for `total_frames` frames,
/// making sure that the final frame is among the samples.
pub fn finish_simulation(
    snapshots: Vec<FrameState>,
    final_state: FrameState,
    total_frames: u32,
) -> (r: SimulationResult)
    ensures
        r.total_frames == total_frames,
        r.final_state@ == final_state@,
        snapshots_view(r.snapshots@) == finished_samples(
            snapshots_view(snapshots@),
            final_state@,
            total_frames,
        ),
{
    let mut snapshots = snapshots;
    let ghost before = snapshots@;
    let n = snapshots.len();
    let captured = n > 0 && snapshots[n - 1].frame == total_frames;
    if !captured {
        snapshots.push(final_state.duplicate());
        assert(snapshots_view(snapshots@) =~= snapshots_view(before).push(final_state@));
    }
    SimulationResult { total_frames, snapshots, final_state }
}

/// When the final state is of the last frame, the finished samples end with a
/// sample of the last frame.
pub proof fn final_frame_is_sampled(
    samples: Seq<FrameStateView>,
    final_state: FrameStateView,
    total_frames: u32,
)
    requires
        final_state.frame == total_frames,
    ensures
        finished_samples(samples, final_state, total_frames).len() > 0,
        finished_samples(samples, final_state, total_frames).last().frame == total_frames,
{
}

/// The first state of player `player_id` in a sample.
pub open spec fn player_in(s: FrameStateView, player_id: u8) -> Option<int> {
    first_index(s.players, |p: PlayerState| p.player_id == player_id)
}

/// For each sample where the player appears: the frame, and the player's supply
/// used and capacity (half-units).
pub open spec fn supply_points(snaps: Seq<FrameStateView>, player_id: u8) -> Seq<(u32, i32, i32)>
    decreases snaps.len(),
{
    if snaps.len() == 0 {
        seq![]
    } else {
        let s = snaps.last();
        let rest = supply_points(snaps.drop_last(), player_id);
        match player_in(s, player_id) {
            Some(i) => rest.push(
                (s.frame, s.players[i].supply_used_halves, s.players[i].supply_max_halves),
            ),
            None => rest,
        }
    }
}

/// For each sample where the player appears: the frame, and the player's
/// minerals and gas.
pub open spec fn resource_points(snaps: Seq<FrameStateView>, player_id: u8) -> Seq<(u32, i32, i32)>
    decreases snaps.len(),
{
    if snaps.len() == 0 {
        seq![]
    } else {
        let s = snaps.last();
        let rest = resource_points(snaps.drop_last(), player_id);
        match player_in(s, player_id) {
            Some(i) => rest.push((s.frame, s.players[i].minerals, s.players[i].gas)),
            None => rest,
        }
    }
}

/// Whether a unit is alive and belongs to player `player_id`.
pub open spec fn army_unit(u: Unit, player_id: u8) -> bool {
    u.player_id == player_id && u.alive
}

/// For each sample: the frame, and the player's number of living units.
pub open spec fn unit_count_points(snaps: Seq<FrameStateView>, player_id: u8) -> Seq<(u32, usize)>
    decreases snaps.len(),
{
    if snaps.len() == 0 {
        seq![]
    } else {
        let s = snaps.last();
        unit_count_points(snaps.drop_last(), player_id).push(
            (s.frame, count_where(s.units, |u: Unit| army_unit(u, player_id)) as usize),
        )
    }
}

/// How many living units of type `unit_id` player `player_id` has.
pub open spec fn unit_tally(units: Seq<Unit>, player_id: u8, unit_id: u16) -> nat {
    count_where(units, |u: Unit| army_unit(u, player_id) && u.unit_id == unit_id)
}

/// The distance between two frames.
pub open spec fn frame_distance(a: u32, b: u32) -> int {
    if a >= b {
        a - b
    } else {
        b - a
    }
}

/// Whether sample `i` is the first of the samples nearest to `frame`.
pub open spec fn nearest_sample(snaps: Seq<FrameStateView>, frame: u32, i: int) -> bool {
    &&& 0 <= i < snaps.len()
    &&& forall|j: int|
        0 <= j < snaps.len() ==> frame_distance(snaps[i].frame, frame) <= frame_distance(
            #[trigger] snaps[j].frame,
            frame,
        )
    &&& forall|j: int|
        0 <= j < i ==> frame_distance(snaps[i].frame, frame) < frame_distance(
            #[trigger] snaps[j].frame,
            frame,
        )
}

/// Whether army entry `a` is listed before `b`: more units, or as many and a
/// smaller unit type.
pub open spec fn army_before(a: (u16, usize), b: (u16, usize)) -> bool {
    a.1 > b.1 || (a.1 == b.1 && a.0 < b.0)
}

/// Whether `army` is the army composition of player `player_id` among `units`:
/// each unit type the player has living units of, once, with its count, most
/// numerous first and equally numerous types by type.
pub open spec fn army_composition(units: Seq<Unit>, player_id: u8, army: Seq<(u16, usize)>) -> bool {
    &&& forall|k: int|
        0 <= k < army.len() ==> (#[trigger] army[k]).1 == unit_tally(units, player_id, army[k].0)
            && army[k].1 > 0
    &&& forall|t: u16|
        unit_tally(units, player_id, t) > 0 ==> exists|k: int|
            0 <= k < army.len() && (#[trigger] army[k]).0 == t
    &&& forall|k: int, l: int|
        0 <= k < l < army.len() ==> army_before(#[trigger] army[k], #[trigger] army[l])
}

fn find_player(s: &FrameState, player_id: u8) -> (r: Option<usize>)
    ensures
        match r {
            Some(i) => i < s.players@.len() && player_in(s@, player_id) == Some(i as int),
            None => player_in(s@, player_id) == None::<int>,
        },
{
    let mut i: usize = 0;
    while i < s.players.len()
        invariant
            i <= s.players@.len(),
            forall|j: int| 0 <= j < i ==> (#[trigger] s.players@[j]).player_id != player_id,
        decreases s.players.len() - i,
    {
        if s.players[i].player_id == player_id {
            proof {
                crate::library::lemma_first_index(
                    s.players@,
                    |p: PlayerState| p.player_id == player_id,
                    i as int,
                );
            }
            return Some(i);
        }
        i = i + 1;
    }
    proof {
        crate::library::lemma_first_index(
            s.players@,
            |p: PlayerState| p.player_id == player_id,
            i as int,
        );
    }
    None
}

fn count_army(units: &Vec<Unit>, player_id: u8) -> (r: usize)
    ensures
        r == count_where(units@, |u: Unit| army_unit(u, player_id)),
{
    let mut n: usize = 0;
    let mut i: usize = 0;
    while i < units.len()
        invariant
            i <= units@.len(),
            n == count_where(units@.take(i as int), |u: Unit| army_unit(u, player_id)),
            n <= i,
        decreases units.len() - i,
    {
        assert(units@.take(i + 1).drop_last() =~= units@.take(i as int));
        if units[i].player_id == player_id && units[i].alive {
            n = n + 1;
        }
        i = i + 1;
    }
    assert(units@.take(i as int) =~= units@);
    n
}

impl SimulationResult {
    /// Supply curve of a player: (frame, supply used, supply capacity) in
    /// half-units, for each sample the player appears in.
    pub fn supply_curve(&self, player_id: u8) -> (r: Vec<(u32, i32, i32)>)
        ensures
            r@ == supply_points(snapshots_view(self.snapshots@), player_id),
    {
        let ghost snaps = snapshots_view(self.snapshots@);
        let mut out: Vec<(u32, i32, i32)> = Vec::new();
        let mut i: usize = 0;
        while i < self.snapshots.len()
            invariant
                i <= self.snapshots@.len(),
                snaps == snapshots_view(self.snapshots@),
                out@ == supply_points(snaps.take(i as int), player_id),
            decreases self.snapshots.len() - i,
        {
            assert(snaps.take(i + 1).drop_last() =~= snaps.take(i as int));
            assert(snaps.take(i + 1).last() == self.snapshots@[i as int]@);
            let s = &self.snapshots[i];
            match find_player(s, player_id) {
                Some(k) => {
                    out.push((s.frame, s.players[k].supply_used_halves, s.players[k].supply_max_halves));
                },
                None => {},
            }
            i = i + 1;
        }
        assert(snaps.take(i as int) =~= snaps);
        out
    }

    /// Resource curve of a player: (frame, minerals, gas), for each sample the
    /// player appears in.
    pub fn resource_curve(&self, player_id: u8) -> (r: Vec<(u32, i32, i32)>)
        ensures
            r@ == resource_points(snapshots_view(self.snapshots@), player_id),
    {
        let ghost snaps = snapshots_view(self.snapshots@);
        let mut out: Vec<(u32, i32, i32)> = Vec::new();
        let mut i: usize = 0;
        while i < self.snapshots.len()
            invariant
                i <= self.snapshots@.len(),
                snaps == snapshots_view(self.snapshots@),
                out@ == resource_points(snaps.take(i as int), player_id),
            decreases self.snapshots.len() - i,
        {
            assert(snaps.take(i + 1).drop_last() =~= snaps.take(i as int));
            assert(snaps.take(i + 1).last() == self.snapshots@[i as int]@);
            let s = &self.snapshots[i];
            match find_player(s, player_id) {
                Some(k) => {
                    out.push((s.frame, s.players[k].minerals, s.players[k].gas));
                },
                None => {},
            }
            i = i + 1;
        }
        assert(snaps.take(i as int) =~= snaps);
        out
    }

    /// Unit count of a player over time: (frame, living units), for each sample.
    pub fn unit_count_curve(&self, player_id: u8) -> (r: Vec<(u32, usize)>)
        ensures
            r@ == unit_count_points(snapshots_view(self.snapshots@), player_id),
    {
        let ghost snaps = snapshots_view(self.snapshots@);
        let mut out: Vec<(u32, usize)> = Vec::new();
        let mut i: usize = 0;
        while i < self.snapshots.len()
            invariant
                i <= self.snapshots@.len(),
                snaps == snapshots_view(self.snapshots@),
                out@ == unit_count_points(snaps.take(i as int), player_id),
            decreases self.snapshots.len() - i,
        {
            assert(snaps.take(i + 1).drop_last() =~= snaps.take(i as int));
            assert(snaps.take(i + 1).last() == self.snapshots@[i as int]@);
            let s = &self.snapshots[i];
            let n = count_army(&s.units, player_id);
            out.push((s.frame, n));
            i = i + 1;
        }
        assert(snaps.take(i as int) =~= snaps);
        out
    }
}

/// Extracts the raw decompressed header and command sections from a replay
/// file, as the simulator takes them.
pub fn extract_replay_sections(data: &[u8]) -> (r: Result<(Vec<u8>, Vec<u8>), String>)
    ensures
        match r {
            Ok((h, c)) => raw_sections(data@) == Ok::<(Seq<u8>, Seq<u8>), ReplayError>(
                (h@, c@),
            ),
            Err(m) => exists|e: ReplayError|
                raw_sections(data@) == Err::<(Seq<u8>, Seq<u8>), ReplayError>(e) && m@
                    == error_message(e),
        },
{
    extract_raw_sections(data)
}


fn nearest_index(snapshots: &Vec<FrameState>, frame: u32) -> (r: usize)
    requires
        snapshots@.len() > 0,
    ensures
        nearest_sample(snapshots_view(snapshots@), frame, r as int),
{
    let ghost snaps = snapshots_view(snapshots@);
    let mut best: usize = 0;
    let mut best_d: u64 = if snapshots[0].frame >= frame {
        (snapshots[0].frame - frame) as u64
    } else {
        (frame - snapshots[0].frame) as u64
    };
    let mut j: usize = 1;
    while j < snapshots.len()
        invariant
            snaps == snapshots_view(snapshots@),
            snaps.len() == snapshots@.len(),
            1 <= j <= snapshots@.len(),
            best < j,
            best_d == frame_distance(snaps[best as int].frame, frame),
            forall|k: int| 0 <= k < j ==> best_d <= frame_distance(#[trigger] snaps[k].frame, frame),
            forall|k: int| 0 <= k < best ==> best_d < frame_distance(#[trigger] snaps[k].frame, frame),
        decreases snapshots.len() - j,
    {
        assert(snaps[j as int] == snapshots@[j as int]@);
        let f = snapshots[j].frame;
        let d: u64 = if f >= frame {
            (f - frame) as u64
        } else {
            (frame - f) as u64
        };
        if d < best_d {
            best = j;
            best_d = d;
        }
        j = j + 1;
    }
    best
}

fn tally_units(units: &Vec<Unit>, player_id: u8) -> (r: Vec<(u16, usize)>)
    ensures
        forall|k: int|
            0 <= k < r@.len() ==> (#[trigger] r@[k]).1 == unit_tally(units@, player_id, r@[k].0)
                && r@[k].1 > 0,
        forall|t: u16|
            unit_tally(units@, player_id, t) > 0 ==> exists|k: int|
                0 <= k < r@.len() && (#[trigger] r@[k]).0 == t,
        forall|k: int, l: int| 0 <= k < l < r@.len() ==> (#[trigger] r@[k]).0 != (#[trigger] r@[l]).0,
{
    let mut groups: Vec<(u16, usize)> = Vec::new();
    let mut i: usize = 0;
    while i < units.len()
        invariant
            i <= units@.len(),
            forall|k: int|
                0 <= k < groups@.len() ==> (#[trigger] groups@[k]).1 == unit_tally(
                    units@.take(i as int),
                    player_id,
                    groups@[k].0,
                ) && groups@[k].1 > 0 && groups@[k].1 <= i,
            forall|t: u16|
                unit_tally(units@.take(i as int), player_id, t) > 0 ==> exists|k: int|
                    0 <= k < groups@.len() && (#[trigger] groups@[k]).0 == t,
            forall|k: int, l: int|
                0 <= k < l < groups@.len() ==> (#[trigger] groups@[k]).0 != (
                #[trigger] groups@[l]).0,
        decreases units.len() - i,
    {
        let ghost prev = units@.take(i as int);
        let ghost next = units@.take(i + 1);
        assert(next.drop_last() =~= prev);
        let u = units[i];
        assert(next.last() == u);
        assert forall|t: u16| t != u.unit_id || !army_unit(u, player_id) implies unit_tally(
            next,
            player_id,
            t,
        ) == unit_tally(prev, player_id, t) by {}
        if u.player_id == player_id && u.alive {
            let mut k: usize = 0;
            while k < groups.len() && groups[k].0 != u.unit_id
                invariant
                    k <= groups@.len(),
                    forall|m: int| 0 <= m < k ==> (#[trigger] groups@[m]).0 != u.unit_id,
                decreases groups.len() - k,
            {
                k = k + 1;
            }
            let ghost old_groups = groups@;
            assert(unit_tally(next, player_id, u.unit_id) == unit_tally(prev, player_id, u.unit_id)
                + 1);
            if k < groups.len() {
                let c = groups[k].1;
                groups.set(k, (u.unit_id, c + 1));
                assert forall|m: int| 0 <= m < groups@.len() implies (#[trigger] groups@[m]).1
                    == unit_tally(next, player_id, groups@[m].0) && groups@[m].1 > 0
                    && groups@[m].1 <= i + 1 by {
                    if m != k {
                        assert(groups@[m] == old_groups[m]);
                    }
                }
                assert forall|t: u16| unit_tally(next, player_id, t) > 0 implies exists|m: int|
                    0 <= m < groups@.len() && (#[trigger] groups@[m]).0 == t by {
                    if t == u.unit_id {
                        assert(groups@[k as int].0 == t);
                    } else {
                        let m = choose|m: int|
                            0 <= m < old_groups.len() && (#[trigger] old_groups[m]).0 == t;
                        assert(groups@[m].0 == t);
                    }
                }
            } else {
                assert(unit_tally(prev, player_id, u.unit_id) == 0) by {
                    if unit_tally(prev, player_id, u.unit_id) > 0 {
                        let m = choose|m: int|
                            0 <= m < old_groups.len() && (#[trigger] old_groups[m]).0
                                == u.unit_id;
                        assert(old_groups[m].0 != u.unit_id);
                    }
                }
                groups.push((u.unit_id, 1));
                assert forall|m: int| 0 <= m < groups@.len() implies (#[trigger] groups@[m]).1
                    == unit_tally(next, player_id, groups@[m].0) && groups@[m].1 > 0
                    && groups@[m].1 <= i + 1 by {
                    if m < old_groups.len() {
                        assert(groups@[m] == old_groups[m]);
                    }
                }
                assert forall|t: u16| unit_tally(next, player_id, t) > 0 implies exists|m: int|
                    0 <= m < groups@.len() && (#[trigger] groups@[m]).0 == t by {
                    if t == u.unit_id {
                        assert(groups@[old_groups.len() as int].0 == t);
                    } else {
                        let m = choose|m: int|
                            0 <= m < old_groups.len() && (#[trigger] old_groups[m]).0 == t;
                        assert(groups@[m].0 == t);
                    }
                }
            }
        }
        i = i + 1;
    }
    assert(units@.take(i as int) =~= units@);
    groups
}

/// Whether army entries are listed in `army_before` order.
pub open spec fn army_sorted(s: Seq<(u16, usize)>) -> bool {
    forall|k: int, l: int| 0 <= k < l < s.len() ==> army_before(#[trigger] s[k], #[trigger] s[l])
}

proof fn lemma_insert_sorted(old: Seq<(u16, usize)>, x: (u16, usize), p: int)
    requires
        0 <= p <= old.len(),
        army_sorted(old),
        forall|k: int| 0 <= k < p ==> army_before(#[trigger] old[k], x),
        forall|k: int| 0 <= k < old.len() ==> (#[trigger] old[k]).0 != x.0,
        p < old.len() ==> !army_before(old[p], x),
    ensures
        army_sorted(old.insert(p, x)),
{
    let new = old.insert(p, x);
    assert forall|l: int| p <= l < old.len() implies army_before(x, #[trigger] old[l]) by {
        if l > p {
            assert(army_before(old[p], old[l]));
        }
    }
    assert forall|k: int, l: int| 0 <= k < l < new.len() implies army_before(
        #[trigger] new[k],
        #[trigger] new[l],
    ) by {
        if k < p && l < p {
            assert(new[k] == old[k] && new[l] == old[l]);
        } else if k < p && l == p {
            assert(new[k] == old[k]);
        } else if k < p && l > p {
            assert(new[k] == old[k] && new[l] == old[l - 1]);
        } else if k == p {
            assert(new[l] == old[l - 1]);
        } else {
            assert(new[k] == old[k - 1] && new[l] == old[l - 1]);
        }
    }
}

proof fn lemma_insert_members(
    old: Seq<(u16, usize)>,
    groups: Seq<(u16, usize)>,
    i: int,
    p: int,
)
    requires
        0 <= i < groups.len(),
        0 <= p <= old.len(),
        same_entries(old, groups, i),
    ensures
        same_entries(old.insert(p, groups[i]), groups, i + 1),
{
    let new = old.insert(p, groups[i]);
    assert forall|k: int| #![trigger new[k]] 0 <= k < new.len() implies exists|g: int|
        #![trigger groups[g]] 0 <= g < i + 1 && groups[g] == new[k] by {
        if k < p {
            assert(new[k] == old[k]);
            let g = choose|g: int| #![trigger groups[g]] 0 <= g < i && groups[g] == old[k];
        } else if k == p {
            assert(new[k] == groups[i]);
        } else {
            assert(new[k] == old[k - 1]);
            let g = choose|g: int| #![trigger groups[g]] 0 <= g < i && groups[g] == old[k - 1];
        }
    }
    assert forall|g: int| #![trigger groups[g]] 0 <= g < i + 1 implies exists|k: int|
        #![trigger new[k]] 0 <= k < new.len() && new[k] == groups[g] by {
        if g == i {
            assert(new[p] == groups[g]);
        } else {
            let k = choose|k: int| #![trigger old[k]] 0 <= k < old.len() && old[k] == groups[g];
            if k < p {
                assert(new[k] == groups[g]);
            } else {
                assert(new[k + 1] == groups[g]);
            }
        }
    }
}

fn insert_position(sorted: &Vec<(u16, usize)>, x: (u16, usize)) -> (p: usize)
    ensures
        p <= sorted@.len(),
        forall|k: int| 0 <= k < p ==> army_before(#[trigger] sorted@[k], x),
        p < sorted@.len() ==> !army_before(sorted@[p as int], x),
{
    let mut p: usize = 0;
    while p < sorted.len() && (sorted[p].1 > x.1 || (sorted[p].1 == x.1 && sorted[p].0 < x.0))
        invariant
            p <= sorted@.len(),
            forall|k: int| 0 <= k < p ==> army_before(#[trigger] sorted@[k], x),
        decreases sorted.len() - p,
    {
        p = p + 1;
    }
    p
}

/// Whether every entry of `sorted` is one of the first `i` groups, and every one
/// of those groups is an entry of `sorted`.
pub open spec fn same_entries(sorted: Seq<(u16, usize)>, groups: Seq<(u16, usize)>, i: int) -> bool {
    &&& forall|k: int|
        #![trigger sorted[k]]
        0 <= k < sorted.len() ==> exists|g: int|
            #![trigger groups[g]]
            0 <= g < i && groups[g] == sorted[k]
    &&& forall|g: int|
        #![trigger groups[g]]
        0 <= g < i ==> exists|k: int|
            #![trigger sorted[k]]
            0 <= k < sorted.len() && sorted[k] == groups[g]
}

fn sort_army(groups: &Vec<(u16, usize)>) -> (sorted: Vec<(u16, usize)>)
    requires
        forall|k: int, l: int|
            0 <= k < l < groups@.len() ==> (#[trigger] groups@[k]).0 != (#[trigger] groups@[l]).0,
    ensures
        same_entries(sorted@, groups@, groups@.len() as int),
        army_sorted(sorted@),
{
    let mut sorted: Vec<(u16, usize)> = Vec::new();
    let mut i: usize = 0;
    while i < groups.len()
        invariant
            i <= groups@.len(),
            forall|k: int, l: int|
                0 <= k < l < groups@.len() ==> (#[trigger] groups@[k]).0 != (#[trigger] groups@[l]).0,
            same_entries(sorted@, groups@, i as int),
            army_sorted(sorted@),
        decreases groups.len() - i,
    {
        let x = groups[i];
        let p = insert_position(&sorted, x);
        let ghost old_sorted = sorted@;
        proof {
            lemma_distinct_from_new(old_sorted, groups@, i as int);
            lemma_insert_sorted(old_sorted, x, p as int);
            lemma_insert_members(old_sorted, groups@, i as int, p as int);
        }
        sorted.insert(p, x);
        i = i + 1;
    }
    sorted
}

proof fn lemma_distinct_from_new(old: Seq<(u16, usize)>, groups: Seq<(u16, usize)>, i: int)
    requires
        0 <= i < groups.len(),
        forall|k: int, l: int|
            0 <= k < l < groups.len() ==> (#[trigger] groups[k]).0 != (#[trigger] groups[l]).0,
        same_entries(old, groups, i),
    ensures
        forall|k: int| 0 <= k < old.len() ==> (#[trigger] old[k]).0 != groups[i].0,
{
    assert forall|k: int| 0 <= k < old.len() implies (#[trigger] old[k]).0 != groups[i].0 by {
        let g = choose|g: int| #![trigger groups[g]] 0 <= g < i && groups[g] == old[k];
    }
}

/// Army composition of a player at the sample nearest to `frame` (the first such
/// sample): each unit type with living units and its count, most numerous first,
/// equally numerous types by unit type.  Empty when there are no samples.
pub fn army_at(snapshots: &Vec<FrameState>, frame: u32, player_id: u8) -> (r: Vec<(u16, usize)>)
    ensures
        snapshots@.len() == 0 ==> r@.len() == 0,
        snapshots@.len() > 0 ==> exists|i: int|
            nearest_sample(snapshots_view(snapshots@), frame, i) && army_composition(
                snapshots@[i].units@,
                player_id,
                r@,
            ),
{
    if snapshots.len() == 0 {
        return Vec::new();
    }
    let best = nearest_index(snapshots, frame);
    let units = &snapshots[best].units;
    let groups = tally_units(units, player_id);
    let sorted = sort_army(&groups);
    proof {
        let ghost snaps = snapshots_view(snapshots@);
        assert(snaps[best as int].units == units@);
        assert forall|k: int| 0 <= k < sorted@.len() implies (#[trigger] sorted@[k]).1
            == unit_tally(units@, player_id, sorted@[k].0) && sorted@[k].1 > 0 by {
            let g = choose|g: int|
                #![trigger groups@[g]]
                0 <= g < groups@.len() && groups@[g] == sorted@[k];
        }
        assert forall|t: u16| unit_tally(units@, player_id, t) > 0 implies exists|k: int|
            0 <= k < sorted@.len() && (#[trigger] sorted@[k]).0 == t by {
            let g = choose|g: int| 0 <= g < groups@.len() && (#[trigger] groups@[g]).0 == t;
            let k = choose|k: int|
                #![trigger sorted@[k]]
                0 <= k < sorted@.len() && sorted@[k] == groups@[g];
        }
        assert(army_composition(snapshots@[best as int].units@, player_id, sorted@));
    }
    sorted
}

impl SimulationResult {
    /// Army composition of a player at the sample nearest to `frame`: each unit
    /// type with living units and its count, most numerous first.
    pub fn army_at_frame(&self, frame: u32, player_id: u8) -> (r: Vec<(u16, usize)>)
        ensures
            self.snapshots@.len() == 0 ==> r@.len() == 0,
            self.snapshots@.len() > 0 ==> exists|i: int|
                nearest_sample(snapshots_view(self.snapshots@), frame, i) && army_composition(
                    self.snapshots@[i].units@,
                    player_id,
                    r@,
                ),
    {
        army_at(&self.snapshots, frame, player_id)
    }
}

} // verus!
