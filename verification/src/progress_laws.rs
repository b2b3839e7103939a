//! What holds of the percentages that a startup shows.

use crate::progress::{
    spec_attempt_percent, spec_nominal_percent, spec_shown_percent, spec_wait_percent, Stage,
};
use vstd::arithmetic::div_mod::{lemma_div_is_ordered, lemma_div_plus_one};
use vstd::prelude::*;

verus! {

/// The percentage that is on show after the stages of `stages` were reported
/// one after the other to a fresh reporter.
pub open spec fn spec_last_after(stages: Seq<Stage>) -> u32
    decreases stages.len(),
{
    if stages.len() == 0 {
        0
    } else {
        spec_shown_percent(spec_last_after(stages.drop_last()), stages.last())
    }
}

/// Whatever it showed before, the percentage shown for a stage is no lower,
/// and it is the stage's own wherever that is no lower and at most 100.
pub proof fn lemma_shown_percent(last: u32, stage: Stage)
    ensures
        last <= spec_shown_percent(last, stage),
        last <= 100 ==> spec_shown_percent(last, stage) <= 100,
        last <= spec_nominal_percent(stage) <= 100 ==> spec_shown_percent(last, stage)
            == spec_nominal_percent(stage),
{
}

/// Whatever stages are reported and in whatever order, the percentage on show
/// never falls and never exceeds 100.
pub proof fn lemma_shown_never_falls(stages: Seq<Stage>, i: int, j: int)
    requires
        0 <= i <= j <= stages.len(),
    ensures
        spec_last_after(stages.take(i)) <= spec_last_after(stages.take(j)) <= 100,
    decreases j,
{
    if j == 0 {
        assert(stages.take(0) =~= Seq::<Stage>::empty());
    } else if i == j {
        lemma_shown_never_falls(stages, 0, j - 1);
        assert(stages.take(j).drop_last() =~= stages.take(j - 1));
        lemma_shown_percent(spec_last_after(stages.take(j - 1)), stages.take(j).last());
    } else {
        lemma_shown_never_falls(stages, i, j - 1);
        assert(stages.take(j).drop_last() =~= stages.take(j - 1));
        lemma_shown_percent(spec_last_after(stages.take(j - 1)), stages.take(j).last());
    }
}

/// A later readiness attempt never has a lower percentage than an earlier
/// one, and the attempts within the budget stay between 38 and 90.
pub proof fn lemma_attempt_percent_rises(a: u32, b: u32, of: u32)
    requires
        a <= b,
    ensures
        spec_attempt_percent(a, of) <= spec_attempt_percent(b, of),
        38 <= spec_attempt_percent(a, of),
        b <= of ==> spec_attempt_percent(b, of) <= 90,
{
    if of > 0 {
        lemma_div_is_ordered(a * 52, b * 52, of as int);
        lemma_div_is_ordered(0, a * 52, of as int);
        if b <= of {
            assert(b * 52 <= of * 52) by (nonlinear_arith)
                requires
                    b <= of,
            ;
            lemma_div_is_ordered(b * 52, of * 52, of as int);
            assert((of * 52) / (of as int) == 52) by (nonlinear_arith)
                requires
                    of > 0,
            ;
        }
    }
}

/// With a budget of at most 52 attempts, the percentage shown during the pause
/// after an attempt lies between that of the attempt and that of the next.
pub proof fn lemma_wait_percent_between(attempt: u32, of: u32, slice: u32, slices: u32)
    requires
        1 <= of <= 52,
        attempt < of,
        slice <= slices,
    ensures
        spec_attempt_percent(attempt, of) <= spec_wait_percent(attempt, of, slice, slices),
        spec_wait_percent(attempt, of, slice, slices) <= spec_attempt_percent(
            (attempt + 1) as u32,
            of,
        ),
{
    let d = of as int;
    if slices > 0 {
        lemma_div_is_ordered(0, slice as int, slices as int);
        lemma_div_is_ordered(slice as int, slices as int, slices as int);
        assert(slices as int / slices as int == 1) by (nonlinear_arith)
            requires
                slices > 0,
        ;
    }
    lemma_div_plus_one(attempt * 52, d);
    lemma_div_is_ordered(d + attempt * 52, (attempt + 1) * 52, d);
}

/// Where a stage stands in a startup: its step; within the step, the round in
/// which an indicator was seen or the readiness attempt; within the attempt,
/// the slice of the pause after it.
pub open spec fn spec_position(stage: Stage) -> (int, int, int) {
    match stage {
        Stage::FindingWorkingDirectory => (0, 0, 0),
        Stage::CheckingEntryFile => (1, 0, 0),
        Stage::LookingForInterpreter => (2, 0, 0),
        Stage::StartingProcess => (3, 0, 0),
        Stage::ProcessStarted => (4, 0, 0),
        Stage::LoadingModules => (5, 0, 0),
        Stage::InitializingFramework => (6, 0, 0),
        Stage::SettingUpDatabase => (7, 0, 0),
        Stage::IndicatorSeen { round, indicator } => (8, round as int, 0),
        Stage::ConfiguringMiddleware => (9, 0, 0),
        Stage::RegisteringRoutes => (10, 0, 0),
        Stage::BindingPort => (11, 0, 0),
        Stage::StartupComplete => (12, 0, 0),
        Stage::ReadinessAttempt { attempt, of } => (13, attempt as int, 0),
        Stage::RetryWait { attempt, of, slice, slices } => (13, attempt as int, slice as int),
        Stage::ConnectionEstablished => (14, 0, 0),
        Stage::Ready => (15, 0, 0),
    }
}

/// `a` stands no later than `b`.
pub open spec fn spec_no_later(a: (int, int, int), b: (int, int, int)) -> bool {
    a.0 < b.0 || (a.0 == b.0 && (a.1 < b.1 || (a.1 == b.1 && a.2 <= b.2)))
}

/// The stage occurs in a startup with a readiness budget of `of` attempts and
/// pauses of `slices` slices, with an indicator seen no later than the fifth
/// round of looking.
pub open spec fn spec_scheduled(stage: Stage, budget: u32, pause_slices: u32) -> bool {
    match stage {
        Stage::IndicatorSeen { round, indicator } => round <= 4,
        Stage::ReadinessAttempt { attempt, of } => of == budget && 1 <= attempt <= of,
        Stage::RetryWait { attempt, of, slice, slices } => of == budget && slices == pause_slices
            && 1 <= attempt < of && 1 <= slice <= slices,
        _ => true,
    }
}

/// In a startup with at most 52 readiness attempts, a stage that stands no
/// later than another has no higher percentage of its own, none of them above
/// 100: the reporter then shows each stage's own percentage.
pub proof fn lemma_schedule_rises(a: Stage, b: Stage, budget: u32, pause_slices: u32)
    requires
        budget <= 52,
        spec_scheduled(a, budget, pause_slices),
        spec_scheduled(b, budget, pause_slices),
        spec_no_later(spec_position(a), spec_position(b)),
    ensures
        spec_nominal_percent(a) <= spec_nominal_percent(b) <= 100,
{
    lemma_stage_within_readiness(a, budget, pause_slices);
    lemma_stage_within_readiness(b, budget, pause_slices);
    if spec_position(a).0 == 13 && spec_position(b).0 == 13 {
        let (attempt_a, slice_a) = match a {
            Stage::ReadinessAttempt { attempt, of } => (attempt, 0u32),
            Stage::RetryWait { attempt, of, slice, slices } => (attempt, slice),
            _ => (0u32, 0u32),
        };
        let (attempt_b, slice_b) = match b {
            Stage::ReadinessAttempt { attempt, of } => (attempt, 0u32),
            Stage::RetryWait { attempt, of, slice, slices } => (attempt, slice),
            _ => (0u32, 0u32),
        };
        if attempt_a < attempt_b {
            lemma_attempt_percent_rises((attempt_a + 1) as u32, attempt_b, budget);
            if a is RetryWait {
                lemma_wait_percent_between(attempt_a, budget, slice_a, pause_slices);
            } else {
                lemma_attempt_percent_rises(attempt_a, (attempt_a + 1) as u32, budget);
            }
            if b is RetryWait {
                lemma_wait_percent_between(attempt_b, budget, slice_b, pause_slices);
            }
        } else {
            if pause_slices > 0 {
                lemma_div_is_ordered(slice_a as int, slice_b as int, pause_slices as int);
                lemma_div_is_ordered(0, slice_b as int, pause_slices as int);
            }
        }
    }
}

/// The percentage of a stage of the readiness phase lies between 38 and 91;
/// that of any scheduled stage is at most 100.
pub proof fn lemma_stage_within_readiness(stage: Stage, budget: u32, pause_slices: u32)
    requires
        budget <= 52,
        spec_scheduled(stage, budget, pause_slices),
    ensures
        spec_nominal_percent(stage) <= 100,
        spec_position(stage).0 == 13 ==> 38 <= spec_nominal_percent(stage) <= 91,
{
    match stage {
        Stage::ReadinessAttempt { attempt, of } => {
            lemma_attempt_percent_rises(attempt, attempt, of);
        },
        Stage::RetryWait { attempt, of, slice, slices } => {
            lemma_wait_percent_between(attempt, of, slice, slices);
            lemma_attempt_percent_rises(attempt, (attempt + 1) as u32, of);
        },
        _ => {},
    }
}

} // verus!
