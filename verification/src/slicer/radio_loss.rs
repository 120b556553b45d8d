//! Stamp the default radio-loss policy onto every step of a sortie, by the
//! step's type. The defaults are deliberately conservative.

use vstd::prelude::*;

use crate::protocol::{RadioLossBehaviour, RadioLossPolicy, Sortie, SortieStep, StepType};

verus! {

/// The default policy of a step type.
pub open spec fn default_policy(t: StepType) -> RadioLossPolicy {
    match t {
        StepType::Takeoff => RadioLossPolicy {
            behaviour: RadioLossBehaviour::HoldThenRtl,
            silent_timeout_s: 5,
            hold_then_rtl_after_s: Some(10),
        },
        StepType::SprayPass => RadioLossPolicy {
            behaviour: RadioLossBehaviour::Continue,
            silent_timeout_s: 60,
            hold_then_rtl_after_s: None,
        },
        StepType::RefillApproach => RadioLossPolicy {
            behaviour: RadioLossBehaviour::HoldThenRtl,
            silent_timeout_s: 15,
            hold_then_rtl_after_s: Some(30),
        },
        StepType::RefillWait => RadioLossPolicy {
            behaviour: RadioLossBehaviour::HoldThenRtl,
            silent_timeout_s: 60,
            hold_then_rtl_after_s: Some(60),
        },
        StepType::Transit | StepType::ReturnToBase | StepType::Land => RadioLossPolicy {
            behaviour: RadioLossBehaviour::Continue,
            silent_timeout_s: 30,
            hold_then_rtl_after_s: None,
        },
    }
}

/// The default radio-loss policy for a step type.
pub fn default_for(step_type: StepType) -> (r: RadioLossPolicy)
    ensures
        r == default_policy(step_type),
{
    match step_type {
        StepType::Takeoff => RadioLossPolicy {
            behaviour: RadioLossBehaviour::HoldThenRtl,
            silent_timeout_s: 5,
            hold_then_rtl_after_s: Some(10),
        },
        StepType::SprayPass => RadioLossPolicy {
            behaviour: RadioLossBehaviour::Continue,
            silent_timeout_s: 60,
            hold_then_rtl_after_s: None,
        },
        StepType::RefillApproach => RadioLossPolicy {
            behaviour: RadioLossBehaviour::HoldThenRtl,
            silent_timeout_s: 15,
            hold_then_rtl_after_s: Some(30),
        },
        StepType::RefillWait => RadioLossPolicy {
            behaviour: RadioLossBehaviour::HoldThenRtl,
            silent_timeout_s: 60,
            hold_then_rtl_after_s: Some(60),
        },
        StepType::Transit | StepType::ReturnToBase | StepType::Land => RadioLossPolicy {
            behaviour: RadioLossBehaviour::Continue,
            silent_timeout_s: 30,
            hold_then_rtl_after_s: None,
        },
    }
}

/// `s` with the default policy of its type.
pub open spec fn stamped<W>(s: SortieStep<W>) -> SortieStep<W> {
    SortieStep { radio_loss: default_policy(s.step_type), ..s }
}

/// Replace every step's radio-loss policy by its type's default, leaving
/// everything else as it was.
pub fn assign_defaults<W>(sortie: Sortie<W>) -> (r: Sortie<W>)
    ensures
        r.sortie_id == sortie.sortie_id,
        r.plan_id == sortie.plan_id,
        r.drone_id == sortie.drone_id,
        r.expected_duration_s == sortie.expected_duration_s,
        r.steps@.len() == sortie.steps@.len(),
        forall|i: int| 0 <= i < r.steps@.len() ==> #[trigger] r.steps@[i] == stamped(sortie.steps@[i]),
{
    let Sortie { sortie_id, plan_id, drone_id, steps, expected_duration_s } = sortie;
    let ghost old_steps = steps@;
    let n = steps.len();
    let mut rest = steps;
    let mut out: Vec<SortieStep<W>> = Vec::new();
    let mut k: usize = 0;
    while k < n
        invariant
            n == old_steps.len(),
            0 <= k <= n,
            rest@ == old_steps.subrange(k as int, n as int),
            out@.len() == k,
            forall|i: int| 0 <= i < k ==> #[trigger] out@[i] == stamped(old_steps[i]),
        decreases n - k,
    {
        assert(rest@.len() > 0);
        let mut step = rest.remove(0);
        step.radio_loss = default_for(step.step_type);
        out.push(step);
        assert(old_steps.subrange(k as int, n as int).remove(0) =~= old_steps.subrange(
            k + 1,
            n as int,
        ));
        k = k + 1;
    }
    Sortie { sortie_id, plan_id, drone_id, steps: out, expected_duration_s }
}

/// The default policy table: a take-off holds 10 s then returns after 5 s
/// of silence; approaching the refill point holds 30 s after 15 s; waiting
/// at it holds 60 s after 60 s; a spray pass carries on after 60 s; a
/// transit, the return to base and the landing carry on after 30 s.
pub proof fn lemma_default_policy_table()
    ensures
        default_policy(StepType::Takeoff) == (RadioLossPolicy {
            behaviour: RadioLossBehaviour::HoldThenRtl,
            silent_timeout_s: 5,
            hold_then_rtl_after_s: Some(10u32),
        }),
        default_policy(StepType::SprayPass) == (RadioLossPolicy {
            behaviour: RadioLossBehaviour::Continue,
            silent_timeout_s: 60,
            hold_then_rtl_after_s: None,
        }),
        default_policy(StepType::RefillApproach) == (RadioLossPolicy {
            behaviour: RadioLossBehaviour::HoldThenRtl,
            silent_timeout_s: 15,
            hold_then_rtl_after_s: Some(30u32),
        }),
        default_policy(StepType::RefillWait) == (RadioLossPolicy {
            behaviour: RadioLossBehaviour::HoldThenRtl,
            silent_timeout_s: 60,
            hold_then_rtl_after_s: Some(60u32),
        }),
        default_policy(StepType::Transit) == (RadioLossPolicy {
            behaviour: RadioLossBehaviour::Continue,
            silent_timeout_s: 30,
            hold_then_rtl_after_s: None,
        }),
        default_policy(StepType::ReturnToBase) == (RadioLossPolicy {
            behaviour: RadioLossBehaviour::Continue,
            silent_timeout_s: 30,
            hold_then_rtl_after_s: None,
        }),
        default_policy(StepType::Land) == (RadioLossPolicy {
            behaviour: RadioLossBehaviour::Continue,
            silent_timeout_s: 30,
            hold_then_rtl_after_s: None,
        }),
{
}

/// The defaults are conservative: only a spray pass, a transit, the return
/// to base and the landing carry on through a radio loss, and every other
/// step holds for a while and then returns to launch.
pub proof fn lemma_default_policy_conservative(t: StepType)
    ensures
        default_policy(t).behaviour is Continue <==> (t is SprayPass || t is Transit
            || t is ReturnToBase || t is Land),
        default_policy(t).behaviour is Continue ==> default_policy(t).hold_then_rtl_after_s is None,
        !(default_policy(t).behaviour is Continue) ==> {
            &&& default_policy(t).behaviour is HoldThenRtl
            &&& default_policy(t).hold_then_rtl_after_s matches Some(h) && h > 0
        },
        default_policy(t).silent_timeout_s > 0,
{
}

/// Stamping a step changes its radio-loss policy and nothing else.
pub proof fn lemma_stamped_changes_only_the_policy<W>(s: SortieStep<W>)
    ensures
        stamped(s).radio_loss == default_policy(s.step_type),
        (SortieStep { radio_loss: s.radio_loss, ..stamped(s) }) == s,
{
}

} // verus!
