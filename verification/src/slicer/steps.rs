//! Step assembly: wrap a packed sortie in the typed step sequence legion's
//! executor drives:
//! `Takeoff → (Transit → SprayPass)* → ReturnToBase → Land`.
//!
//! Waypoints and durations come from the geometry layer; this stage lays
//! them out, numbers the steps and totals the durations.

use vstd::prelude::*;

use crate::domain::uuid_text::uuid_hyphenated;
use crate::protocol::{RadioLossBehaviour, RadioLossPolicy, Sortie, SortieStep, StepSpeed, StepType};
use crate::slicer::sortie_pack::RawSortie;

verus! {

/// The flight geometry of one spray pass: where the drone approaches and
/// leaves the surface, how long the transit to the approach point takes
/// and how long the pass itself takes.
#[derive(Debug, Clone, Copy)]
pub struct PassLeg<W> {
    pub approach: W,
    pub exit: W,
    pub transit_duration_s: u32,
    pub pass_duration_s: u32,
}

/// The fixed frame of every sortie: the truck origin, the point above it at
/// takeoff altitude, and the durations of takeoff, return and landing.
#[derive(Debug, Clone, Copy)]
pub struct SortieFrame<W> {
    pub origin: W,
    pub takeoff: W,
    pub takeoff_duration_s: u32,
    pub return_duration_s: u32,
    pub land_duration_s: u32,
}

/// The policy every step carries until radio-loss defaults are stamped.
pub open spec fn placeholder_policy() -> RadioLossPolicy {
    RadioLossPolicy {
        behaviour: RadioLossBehaviour::Continue,
        silent_timeout_s: 30,
        hold_then_rtl_after_s: None,
    }
}

/// Total transit and pass time of a sequence of legs.
pub open spec fn legs_duration<W>(legs: Seq<PassLeg<W>>) -> int
    decreases legs.len(),
{
    if legs.len() == 0 {
        0
    } else {
        legs_duration(legs.drop_last()) + legs.last().transit_duration_s
            + legs.last().pass_duration_s
    }
}

/// Total duration of a sortie assembled from `legs` in `frame`.
pub open spec fn sortie_duration<W>(legs: Seq<PassLeg<W>>, frame: SortieFrame<W>) -> int {
    frame.takeoff_duration_s + legs_duration(legs) + frame.return_duration_s
        + frame.land_duration_s
}

proof fn lemma_legs_duration_prefix<W>(legs: Seq<PassLeg<W>>, k: int)
    requires
        0 <= k <= legs.len(),
    ensures
        0 <= legs_duration(legs.take(k)) <= legs_duration(legs),
    decreases legs.len() - k,
{
    if k < legs.len() {
        lemma_legs_duration_prefix(legs, k + 1);
        assert(legs.take(k + 1).drop_last() =~= legs.take(k));
    } else {
        assert(legs.take(k) =~= legs);
    }
    lemma_legs_duration_nonneg(legs.take(k));
}

proof fn lemma_legs_duration_nonneg<W>(legs: Seq<PassLeg<W>>)
    ensures
        legs_duration(legs) >= 0,
    decreases legs.len(),
{
    if legs.len() > 0 {
        lemma_legs_duration_nonneg(legs.drop_last());
    }
}

/// A step with the placeholder radio-loss policy.
pub open spec fn step_is<W>(
    s: SortieStep<W>,
    index: int,
    step_type: StepType,
    waypoint: W,
    speed: StepSpeed,
    spray: bool,
    duration: int,
) -> bool {
    &&& s.index == index
    &&& s.step_type == step_type
    &&& s.waypoint == waypoint
    &&& s.speed == speed
    &&& s.spray == spray
    &&& s.radio_loss == placeholder_policy()
    &&& s.expected_duration_s == duration
}

fn make_step<W>(
    index: u32,
    step_type: StepType,
    waypoint: W,
    path: Option<Vec<W>>,
    speed: StepSpeed,
    spray: bool,
    duration: u32,
) -> (r: SortieStep<W>)
    ensures
        step_is(r, index as int, step_type, waypoint, speed, spray, duration as int),
        r.path == path,
{
    SortieStep {
        index,
        step_type,
        waypoint,
        path,
        speed,
        spray,
        radio_loss: RadioLossPolicy {
            behaviour: RadioLossBehaviour::Continue,
            silent_timeout_s: 30,
            hold_then_rtl_after_s: None,
        },
        expected_duration_s: duration,
    }
}

/// Lay a packed sortie out as its typed step sequence.
pub fn assemble<W: Copy>(raw: RawSortie<PassLeg<W>>, frame: &SortieFrame<W>) -> (r: Sortie<W>)
    requires
        2 * raw.passes@.len() + 2 <= u32::MAX,
        sortie_duration(raw.passes@, *frame) <= u32::MAX,
    ensures
        ({
            let legs = raw.passes@;
            let n = legs.len() as int;
            &&& r.sortie_id == raw.sortie_id
            &&& r.drone_id == raw.drone_id
            &&& r.plan_id@ == uuid_hyphenated(raw.plan_id.0)
            &&& r.steps@.len() == 2 * n + 3
            &&& step_is(
                r.steps@[0],
                0,
                StepType::Takeoff,
                frame.takeoff,
                StepSpeed::Ferry,
                false,
                frame.takeoff_duration_s as int,
            )
            &&& r.steps@[0].path is None
            &&& forall|k: int|
                0 <= k < n ==> {
                    &&& step_is(
                        #[trigger] r.steps@[1 + 2 * k],
                        1 + 2 * k,
                        StepType::Transit,
                        legs[k].approach,
                        StepSpeed::Ferry,
                        false,
                        legs[k].transit_duration_s as int,
                    )
                    &&& r.steps@[1 + 2 * k].path is None
                    &&& step_is(
                        r.steps@[2 + 2 * k],
                        2 + 2 * k,
                        StepType::SprayPass,
                        legs[k].approach,
                        StepSpeed::Spray,
                        true,
                        legs[k].pass_duration_s as int,
                    )
                    &&& r.steps@[2 + 2 * k].path matches Some(p) && p@ == seq![
                        legs[k].approach,
                        legs[k].exit,
                    ]
                }
            &&& step_is(
                r.steps@[2 * n + 1],
                2 * n + 1,
                StepType::ReturnToBase,
                frame.takeoff,
                StepSpeed::Ferry,
                false,
                frame.return_duration_s as int,
            )
            &&& r.steps@[2 * n + 1].path is None
            &&& step_is(
                r.steps@[2 * n + 2],
                2 * n + 2,
                StepType::Land,
                frame.origin,
                StepSpeed::Ferry,
                false,
                frame.land_duration_s as int,
            )
            &&& r.steps@[2 * n + 2].path is None
            &&& r.expected_duration_s == sortie_duration(legs, *frame)
        }),
{
    let ghost legs = raw.passes@;
    let n = raw.passes.len();
    let mut steps: Vec<SortieStep<W>> = Vec::new();
    let mut step_idx: u32 = 0;
    let mut total: u32 = 0;
    proof {
        lemma_legs_duration_prefix(legs, 0);
        lemma_legs_duration_prefix(legs, n as int);
    }
    steps.push(
        make_step(
            step_idx,
            StepType::Takeoff,
            frame.takeoff,
            None,
            StepSpeed::Ferry,
            false,
            frame.takeoff_duration_s,
        ),
    );
    step_idx = step_idx + 1;
    total = total + frame.takeoff_duration_s;
    assert(legs.take(0) =~= Seq::<PassLeg<W>>::empty());
    for k in 0..n
        invariant
            n == legs.len(),
            legs == raw.passes@,
            2 * n + 2 <= u32::MAX,
            sortie_duration(legs, *frame) <= u32::MAX,
            step_idx == 1 + 2 * k,
            steps@.len() == 1 + 2 * k,
            total == frame.takeoff_duration_s + legs_duration(legs.take(k as int)),
            step_is(
                steps@[0],
                0,
                StepType::Takeoff,
                frame.takeoff,
                StepSpeed::Ferry,
                false,
                frame.takeoff_duration_s as int,
            ),
            steps@[0].path is None,
            forall|j: int|
                0 <= j < k ==> {
                    &&& step_is(
                        #[trigger] steps@[1 + 2 * j],
                        1 + 2 * j,
                        StepType::Transit,
                        legs[j].approach,
                        StepSpeed::Ferry,
                        false,
                        legs[j].transit_duration_s as int,
                    )
                    &&& steps@[1 + 2 * j].path is None
                    &&& step_is(
                        steps@[2 + 2 * j],
                        2 + 2 * j,
                        StepType::SprayPass,
                        legs[j].approach,
                        StepSpeed::Spray,
                        true,
                        legs[j].pass_duration_s as int,
                    )
                    &&& steps@[2 + 2 * j].path matches Some(p) && p@ == seq![
                        legs[j].approach,
                        legs[j].exit,
                    ]
                },
    {
        let leg = raw.passes[k];
        proof {
            assert(legs.take(k + 1).drop_last() =~= legs.take(k as int));
            assert(legs.take(k + 1).last() == legs[k as int]);
            lemma_legs_duration_prefix(legs, k + 1);
        }
        let ghost before = steps@;
        steps.push(
            make_step(
                step_idx,
                StepType::Transit,
                leg.approach,
                None,
                StepSpeed::Ferry,
                false,
                leg.transit_duration_s,
            ),
        );
        step_idx = step_idx + 1;
        total = total + leg.transit_duration_s;
        let mut path: Vec<W> = Vec::new();
        path.push(leg.approach);
        path.push(leg.exit);
        assert(path@ =~= seq![leg.approach, leg.exit]);
        steps.push(
            make_step(
                step_idx,
                StepType::SprayPass,
                leg.approach,
                Some(path),
                StepSpeed::Spray,
                true,
                leg.pass_duration_s,
            ),
        );
        step_idx = step_idx + 1;
        total = total + leg.pass_duration_s;
        assert forall|j: int| 0 <= j < k + 1 implies {
            &&& step_is(
                #[trigger] steps@[1 + 2 * j],
                1 + 2 * j,
                StepType::Transit,
                legs[j].approach,
                StepSpeed::Ferry,
                false,
                legs[j].transit_duration_s as int,
            )
            &&& steps@[1 + 2 * j].path is None
            &&& step_is(
                steps@[2 + 2 * j],
                2 + 2 * j,
                StepType::SprayPass,
                legs[j].approach,
                StepSpeed::Spray,
                true,
                legs[j].pass_duration_s as int,
            )
            &&& steps@[2 + 2 * j].path matches Some(p) && p@ == seq![legs[j].approach, legs[j].exit]
        } by {
            if j < k {
                assert(steps@[1 + 2 * j] == before[1 + 2 * j]);
                assert(steps@[2 + 2 * j] == before[2 + 2 * j]);
            }
        }
    }
    assert(legs.take(n as int) =~= legs);
    let ghost before = steps@;
    steps.push(
        make_step(
            step_idx,
            StepType::ReturnToBase,
            frame.takeoff,
            None,
            StepSpeed::Ferry,
            false,
            frame.return_duration_s,
        ),
    );
    step_idx = step_idx + 1;
    total = total + frame.return_duration_s;
    steps.push(
        make_step(
            step_idx,
            StepType::Land,
            frame.origin,
            None,
            StepSpeed::Ferry,
            false,
            frame.land_duration_s,
        ),
    );
    total = total + frame.land_duration_s;
    assert forall|k: int| 0 <= k < n implies #[trigger] steps@[1 + 2 * k] == before[1 + 2 * k]
        && steps@[2 + 2 * k] == before[2 + 2 * k] by {}
    Sortie {
        sortie_id: raw.sortie_id,
        plan_id: raw.plan_id.to_string(),
        drone_id: raw.drone_id,
        steps,
        expected_duration_s: total,
    }
}

} // verus!
