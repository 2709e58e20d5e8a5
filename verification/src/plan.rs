//! How a run covers the time between the reference epoch and its target:
//! the number of steps, their length and their direction.

use crate::instant::{elapsed_seconds, Instant, InstantView, REFERENCE_EPOCH_SECONDS};
use vstd::prelude::*;

verus! {

/// Length of a step, in seconds, while the step count stays under the ceiling.
pub const NOMINAL_STEP_SECONDS: u64 = 3600;

/// Ceiling on the number of steps of one run.
pub const MAX_STEPS: u64 = 10_000;

/// How a run covers the time between the reference epoch and its target.
///
/// The step length is the fraction `step_numerator / step_denominator`
/// seconds.
#[derive(Clone, Copy, Debug, PartialEq, Eq, Structural)]
pub struct StepPlan {
    /// Number of steps to take.
    pub steps: u64,
    /// Whether time advances (`true`) or runs backwards from the epoch.
    pub forward: bool,
    pub step_numerator: u64,
    pub step_denominator: u64,
}

/// Absolute value of `delta`.
pub open spec fn magnitude(delta: int) -> int {
    if delta >= 0 {
        delta
    } else {
        -delta
    }
}

/// Steps of nominal length needed to cover `delta` seconds, rounded up.
pub open spec fn nominal_steps(delta: int) -> int {
    (magnitude(delta) + NOMINAL_STEP_SECONDS - 1) / (NOMINAL_STEP_SECONDS as int)
}

/// The plan for a target `delta` seconds from the reference epoch.
///
/// Under the ceiling the steps have nominal length. Over it, the ceiling is
/// the step count and the step is stretched to a `MAX_STEPS`-th of the
/// interval.
pub open spec fn plan_for(delta: int) -> StepPlan {
    if nominal_steps(delta) <= MAX_STEPS {
        StepPlan {
            steps: nominal_steps(delta) as u64,
            forward: delta >= 0,
            step_numerator: NOMINAL_STEP_SECONDS,
            step_denominator: 1,
        }
    } else {
        StepPlan {
            steps: MAX_STEPS,
            forward: delta >= 0,
            step_numerator: magnitude(delta) as u64,
            step_denominator: MAX_STEPS,
        }
    }
}

/// The view of the reference epoch.
pub open spec fn epoch_view() -> InstantView {
    InstantView { secs: REFERENCE_EPOCH_SECONDS as int, nanos: 0 }
}

/// The plan that leads to `target`.
pub open spec fn plan_to(target: InstantView) -> StepPlan {
    plan_for(elapsed_seconds(target, epoch_view()))
}

impl StepPlan {
    /// The plan for a target `delta_seconds` after (or, if negative, before)
    /// the reference epoch.
    pub fn for_delta(delta_seconds: i64) -> (r: StepPlan)
        ensures
            r == plan_for(delta_seconds as int),
            r.steps <= MAX_STEPS,
            r.step_denominator > 0,
    {
        let span: u64 = if delta_seconds >= 0 {
            delta_seconds as u64
        } else if delta_seconds == i64::MIN {
            0x8000_0000_0000_0000
        } else {
            (-delta_seconds) as u64
        };
        let nominal: u64 = (span + (NOMINAL_STEP_SECONDS - 1)) / NOMINAL_STEP_SECONDS;
        if nominal <= MAX_STEPS {
            StepPlan {
                steps: nominal,
                forward: delta_seconds >= 0,
                step_numerator: NOMINAL_STEP_SECONDS,
                step_denominator: 1,
            }
        } else {
            StepPlan {
                steps: MAX_STEPS,
                forward: delta_seconds >= 0,
                step_numerator: span,
                step_denominator: MAX_STEPS,
            }
        }
    }

    /// The plan that leads from the reference epoch to `target`.
    pub fn for_target(target: &Instant) -> (r: StepPlan)
        ensures
            r == plan_to(target@),
            r.steps <= MAX_STEPS,
            r.step_denominator > 0,
    {
        let epoch = Instant::reference_epoch();
        StepPlan::for_delta(target.seconds_since(&epoch))
    }
}

/// A target at the reference epoch, and no other, needs no step.
pub proof fn lemma_no_step_at_epoch(delta: int)
    ensures
        plan_for(0).steps == 0,
        plan_to(epoch_view()).steps == 0,
        plan_for(delta).steps == 0 <==> delta == 0,
{
}

/// The step count never exceeds the ceiling. Under the ceiling the steps of
/// nominal length cover the interval and one step fewer would not; at the
/// ceiling the stretched steps span the interval exactly.
pub proof fn lemma_plan_spans_interval(delta: int)
    ensures
        plan_for(delta).steps <= MAX_STEPS,
        plan_for(delta).step_denominator > 0,
        nominal_steps(delta) <= MAX_STEPS ==> {
            &&& plan_for(delta).steps == nominal_steps(delta)
            &&& plan_for(delta).step_numerator == NOMINAL_STEP_SECONDS
            &&& plan_for(delta).step_denominator == 1
            &&& plan_for(delta).steps * NOMINAL_STEP_SECONDS >= magnitude(delta)
            &&& plan_for(delta).steps * NOMINAL_STEP_SECONDS < magnitude(delta)
                + NOMINAL_STEP_SECONDS
        },
        nominal_steps(delta) > MAX_STEPS && magnitude(delta) <= u64::MAX ==> {
            &&& plan_for(delta).steps == MAX_STEPS
            &&& plan_for(delta).steps * plan_for(delta).step_numerator == magnitude(delta)
                * plan_for(delta).step_denominator
        },
{
}

/// Two instants on opposite sides of the reference epoch and equally far
/// from it are reached by the same number of steps of the same length, in
/// opposite directions.
pub proof fn lemma_mirrored_targets(before: InstantView, after: InstantView)
    requires
        elapsed_seconds(after, epoch_view()) > 0,
        elapsed_seconds(before, epoch_view()) == -elapsed_seconds(after, epoch_view()),
    ensures
        plan_to(before).steps == plan_to(after).steps,
        plan_to(before).step_numerator == plan_to(after).step_numerator,
        plan_to(before).step_denominator == plan_to(after).step_denominator,
        plan_to(after).forward && !plan_to(before).forward,
{
    lemma_mirrored_plans(elapsed_seconds(after, epoch_view()));
}

/// Two targets at the same distance before and after the reference epoch
/// get the same number of steps of the same length, in opposite directions.
pub proof fn lemma_mirrored_plans(delta: int)
    requires
        delta != 0,
    ensures
        plan_for(-delta).steps == plan_for(delta).steps,
        plan_for(-delta).step_numerator == plan_for(delta).step_numerator,
        plan_for(-delta).step_denominator == plan_for(delta).step_denominator,
        plan_for(-delta).forward != plan_for(delta).forward,
{
}

} // verus!
