//! Idle periods: stretches without player actions longer than a threshold.
use super::apm::{actions_of, player_actions};
use crate::parser::Command;
use vstd::prelude::*;

verus! {

/// A period without actions, from one frame to another.
#[derive(Clone, Copy, Debug, PartialEq, Eq, Structural)]
pub struct IdleSpan {
    pub start_frame: u32,
    pub end_frame: u32,
}

/// Whether `d` frames last longer than `threshold_centis` hundredths of a second
/// (at 23.81 frames per second).
pub open spec fn exceeds(d: int, threshold_centis: u64) -> bool {
    d * 10000 > threshold_centis * 2381
}

/// The idle periods between consecutive actions among the first `k` actions.
pub open spec fn gaps_between(acts: Seq<Command>, k: int, threshold_centis: u64) -> Seq<IdleSpan>
    decreases k,
{
    if k <= 1 {
        seq![]
    } else {
        let a = acts[k - 2].frame;
        let b = acts[k - 1].frame;
        gaps_between(acts, k - 1, threshold_centis) + if exceeds(b - a, threshold_centis) {
            seq![IdleSpan { start_frame: a, end_frame: b }]
        } else {
            seq![]
        }
    }
}

/// A player's idle periods longer than the threshold: the whole game when the
/// player never acts; otherwise the time before the first action and the time
/// between two consecutive actions.
pub open spec fn idle_spans_of(
    cmds: Seq<Command>,
    player_id: u8,
    total_frames: u32,
    threshold_centis: u64,
) -> Seq<IdleSpan> {
    let acts = actions_of(cmds, player_id);
    if acts.len() == 0 {
        if exceeds(total_frames as int, threshold_centis) {
            seq![IdleSpan { start_frame: 0, end_frame: total_frames }]
        } else {
            seq![]
        }
    } else {
        (if exceeds(acts[0].frame as int, threshold_centis) {
            seq![IdleSpan { start_frame: 0, end_frame: acts[0].frame }]
        } else {
            seq![]
        }) + gaps_between(acts, acts.len() as int, threshold_centis)
    }
}

proof fn lemma_gaps_exceed(acts: Seq<Command>, k: int, threshold_centis: u64)
    requires
        k <= acts.len(),
    ensures
        forall|i: int|
            0 <= i < gaps_between(acts, k, threshold_centis).len() ==> exceeds(
                (#[trigger] gaps_between(acts, k, threshold_centis)[i]).end_frame
                    - gaps_between(acts, k, threshold_centis)[i].start_frame,
                threshold_centis,
            ),
    decreases k,
{
    if k > 1 {
        lemma_gaps_exceed(acts, k - 1, threshold_centis);
        let prev = gaps_between(acts, k - 1, threshold_centis);
        let cur = gaps_between(acts, k, threshold_centis);
        assert forall|i: int| 0 <= i < cur.len() implies exceeds(
            (#[trigger] cur[i]).end_frame - cur[i].start_frame,
            threshold_centis,
        ) by {
            if i < prev.len() {
                assert(cur[i] == prev[i]);
            }
        }
    }
}

/// Finds a player's idle periods longer than `threshold_centis` hundredths of a
/// second; every period found is longer than the threshold.
pub fn find_idle_spans(
    commands: &[Command],
    player_id: u8,
    total_frames: u32,
    threshold_centis: u64,
) -> (r: Vec<IdleSpan>)
    ensures
        r@ == idle_spans_of(commands@, player_id, total_frames, threshold_centis),
        forall|i: int|
            0 <= i < r@.len() ==> exceeds(
                (#[trigger] r@[i]).end_frame - r@[i].start_frame,
                threshold_centis,
            ),
{
    let acts = player_actions(commands, player_id);
    let limit: u128 = threshold_centis as u128 * 2381;
    let mut gaps: Vec<IdleSpan> = Vec::new();
    if acts.len() == 0 {
        if total_frames as u128 * 10000 > limit {
            gaps.push(IdleSpan { start_frame: 0, end_frame: total_frames });
        }
        assert(gaps@ =~= idle_spans_of(commands@, player_id, total_frames, threshold_centis));
        return gaps;
    }
    let first = acts[0].frame;
    if first as u128 * 10000 > limit {
        gaps.push(IdleSpan { start_frame: 0, end_frame: first });
    }
    let ghost lead = gaps@;
    let mut k: usize = 1;
    while k < acts.len()
        invariant
            1 <= k <= acts@.len(),
            limit == threshold_centis as u128 * 2381,
            gaps@ == lead + gaps_between(acts@, k as int, threshold_centis),
        decreases acts.len() - k,
    {
        let a = acts[k - 1].frame;
        let b = acts[k].frame;
        let ghost before = gaps@;
        if b > a && (b - a) as u128 * 10000 > limit {
            gaps.push(IdleSpan { start_frame: a, end_frame: b });
        }
        k = k + 1;
        assert(gaps@ =~= lead + gaps_between(acts@, k as int, threshold_centis));
    }
    assert(gaps@ =~= idle_spans_of(commands@, player_id, total_frames, threshold_centis));
    proof {
        lemma_gaps_exceed(acts@, acts@.len() as int, threshold_centis);
        let g = gaps_between(acts@, acts@.len() as int, threshold_centis);
        assert forall|i: int| 0 <= i < gaps@.len() implies exceeds(
            (#[trigger] gaps@[i]).end_frame - gaps@[i].start_frame,
            threshold_centis,
        ) by {
            if i >= lead.len() {
                assert(gaps@[i] == g[i - lead.len()]);
            }
        }
    }
    gaps
}

} // verus!
