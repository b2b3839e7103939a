//! What holds of every startup that the supervisor decides.

use crate::launch::{
    spec_launch_message, spec_plan, spec_settle_error, LaunchErrorView, Platform,
};
use crate::paths::{entry_paths, spec_choice, spec_resolution_message};
use crate::probe::{
    spec_action, spec_answers, spec_not_responding_message, spec_start, spec_step, Awaiting,
    HealthProbe, Phase, ProbeConfig,
};
use crate::probe_laws::{
    lemma_start_consistent, lemma_step_consistent, lemma_step_phase_order, spec_consistent,
};
use crate::progress::{spec_failure_event, spec_not_ready_event, ProgressEventView, Stage};
use crate::progress_laws::lemma_shown_percent;
use crate::supervisor::{
    spec_action_command, spec_attempt_stage, spec_begin, spec_dir, spec_emit, spec_emit_all,
    spec_failure_code, spec_first_attempt_stage, spec_give_up, spec_handle,
    spec_indicator_interval_millis,
    spec_indicator_rounds, spec_live_stages, spec_on_probe, spec_probe_event, spec_ready_stages,
    spec_resolved_stages, spec_settled_stages, spec_show_delay_millis, spec_shown_after,
    spec_splash_linger_millis, spec_wait_stage, CommandView, Input, Step, SupervisorView,
};
use vstd::prelude::*;

verus! {

/// The shape of every state that a startup can reach: the health probe is
/// consistent and untouched until the child has settled, the percentage on
/// show is at most 100, the working directory is known from the moment it is
/// resolved, and the supervisor rests in `Done` only with the backend ready.
pub open spec fn spec_valid(s: SupervisorView) -> bool {
    &&& spec_consistent(s.probe)
    &&& s.shown <= 100
    &&& match s.step {
        Step::Resolving => s.working_directory is None && s.probe == spec_start(s.probe.config),
        Step::Inspecting | Step::Spawning | Step::Settling | Step::Checking => {
            s.working_directory is Some && s.probe == spec_start(s.probe.config)
        },
        Step::Probing => s.probe.phase == Phase::Spawned || s.probe.phase == Phase::Live,
        Step::Watching { round } => s.probe.phase == Phase::Live && s.probe.awaiting
            == Awaiting::Delay && round < spec_indicator_rounds(),
        Step::Done => s.probe.phase == Phase::Ready,
        Step::Exited => true,
    }
}

/// The command is a report of an error.
pub open spec fn spec_is_error_report(c: CommandView) -> bool {
    c matches CommandView::Report(event) && event.is_error
}

/// The command puts a stage on show or keeps it there: a report that is no
/// error and has a percentage, or a hold.
pub open spec fn spec_is_display(c: CommandView) -> bool {
    match c {
        CommandView::Report(event) => !event.is_error && event.progress is Some,
        CommandView::Hold { millis } => true,
        _ => false,
    }
}

/// Putting a stage on show takes nothing but display commands.
pub proof fn lemma_emit_is_display(shown: u32, stage: Stage)
    ensures
        forall|i: int|
            0 <= i < spec_emit(shown, stage).len() ==> spec_is_display(
                #[trigger] spec_emit(shown, stage)[i],
            ),
{
}

/// Putting stages on show one after the other takes nothing but display
/// commands.
pub proof fn lemma_emit_all_is_display(shown: u32, stages: Seq<Stage>)
    ensures
        forall|i: int|
            0 <= i < spec_emit_all(shown, stages).len() ==> spec_is_display(
                #[trigger] spec_emit_all(shown, stages)[i],
            ),
    decreases stages.len(),
{
    if stages.len() > 0 {
        let head = spec_emit_all(shown, stages.drop_last());
        let tail = spec_emit(spec_shown_after(shown, stages.drop_last()), stages.last());
        lemma_emit_all_is_display(shown, stages.drop_last());
        lemma_emit_is_display(spec_shown_after(shown, stages.drop_last()), stages.last());
        assert forall|i: int| 0 <= i < (head + tail).len() implies spec_is_display(
            #[trigger] (head + tail)[i],
        ) by {
            if i < head.len() {
                assert((head + tail)[i] == head[i]);
            } else {
                assert((head + tail)[i] == tail[i - head.len()]);
            }
        }
    }
}

/// Putting stages on show never lowers the percentage, and keeps it at most
/// 100; it ends at 100 where the last stage is `Ready`.
pub proof fn lemma_shown_after_rises(shown: u32, stages: Seq<Stage>)
    ensures
        shown <= spec_shown_after(shown, stages),
        shown <= 100 ==> spec_shown_after(shown, stages) <= 100,
        shown <= 100 && stages.len() > 0 && stages.last() == Stage::Ready ==> spec_shown_after(
            shown,
            stages,
        ) == 100,
    decreases stages.len(),
{
    if stages.len() > 0 {
        lemma_shown_after_rises(shown, stages.drop_last());
        lemma_shown_percent(spec_shown_after(shown, stages.drop_last()), stages.last());
    }
}

/// A startup begins in a valid state.
pub proof fn lemma_begin_valid(platform: Platform, config: ProbeConfig)
    ensures
        spec_valid(spec_begin(platform, config).0),
{
    lemma_start_consistent(config);
}

/// Whatever the driver reports in whatever state, the percentage on show does
/// not fall, stays at most 100 if it was, and is 100 when the supervisor comes
/// to rest in `Done`.
pub proof fn lemma_handle_shown(s: SupervisorView, input: Input)
    ensures
        s.shown <= spec_handle(s, input).0.shown,
        s.shown <= 100 ==> spec_handle(s, input).0.shown <= 100,
        s.shown <= 100 && s.step != Step::Done && spec_handle(s, input).0.step == Step::Done
            ==> spec_handle(s, input).0.shown == 100,
{
    lemma_shown_percent(s.shown, Stage::CheckingEntryFile);
    lemma_shown_percent(s.shown, Stage::StartingProcess);
    lemma_shown_after_rises(s.shown, spec_resolved_stages());
    lemma_shown_after_rises(s.shown, spec_ready_stages());
    lemma_shown_after_rises(s.shown, spec_live_stages());
    match s.step {
        Step::Probing => {
            if let Some(event) = spec_probe_event(input) {
                let waited = spec_wait_stage(s.probe);
                let shown = spec_shown_after(s.shown, waited);
                lemma_shown_after_rises(s.shown, waited);
                lemma_shown_after_rises(
                    shown,
                    spec_attempt_stage(s.probe, spec_step(s.probe, event)),
                );
            }
        },
        Step::Watching { round } => {
            if let Input::Indicator(seen) = input {
                let noticed = match seen {
                    Some(indicator) => seq![Stage::IndicatorSeen { round, indicator }],
                    None => Seq::empty(),
                };
                let shown = spec_shown_after(s.shown, noticed);
                let settled = spec_shown_after(shown, spec_settled_stages());
                lemma_shown_after_rises(s.shown, noticed);
                lemma_shown_after_rises(shown, spec_settled_stages());
                lemma_shown_after_rises(settled, spec_first_attempt_stage(s.probe));
            }
        },
        Step::Checking => {
            let waited = spec_wait_stage(s.probe);
            let shown = spec_shown_after(s.shown, waited);
            lemma_shown_after_rises(s.shown, waited);
            lemma_shown_after_rises(shown, spec_attempt_stage(s.probe, s.probe));
        },
        _ => {},
    }
}

/// Whatever the driver reports, the supervisor stays in a valid state.
pub proof fn lemma_handle_valid(s: SupervisorView, input: Input)
    requires
        spec_valid(s),
    ensures
        spec_valid(spec_handle(s, input).0),
        s.shown <= spec_handle(s, input).0.shown,
{
    lemma_handle_shown(s, input);
    match input {
        Input::Probed(attempt) => {
            lemma_step_consistent(s.probe, crate::probe::Event::Probed(attempt));
        },
        Input::Woke => {
            lemma_step_consistent(s.probe, crate::probe::Event::Woke);
        },
        _ => {},
    }
}

/// The step is one at which a child has been spawned.
pub open spec fn spec_after_spawn(step: Step) -> bool {
    match step {
        Step::Settling | Step::Checking | Step::Probing | Step::Watching { .. } => true,
        _ => false,
    }
}

/// The command is in order where the supervisor goes from `s` to `t`:
/// - a report is an error exactly when it has no percentage, and an error is
///   reported only on the way into `Exited`;
/// - the application exits only on the way into `Exited`, and with a non-zero
///   status;
/// - a process is spawned only once the working directory is resolved;
/// - the window is shown only when the backend has become ready;
/// - the application's primary page is asked for only in the phase `Live`,
///   the liveness endpoint only in the phase `Spawned`.
pub open spec fn spec_command_fits(s: SupervisorView, t: SupervisorView, c: CommandView) -> bool {
    match c {
        CommandView::Report(event) => (event.is_error <==> event.progress is None) && (
        event.is_error ==> t.step == Step::Exited && s.step != Step::Exited),
        CommandView::Exit { code } => code != 0 && t.step == Step::Exited && s.step
            != Step::Exited,
        CommandView::Spawn { dir, plan } => s.step == Step::Inspecting && t.step == Step::Spawning
            && s.working_directory == Some(dir),
        CommandView::ShowWindow => t.step == Step::Done && s.step == Step::Probing
            && t.probe.phase == Phase::Ready,
        CommandView::Get(endpoint) => t.step == Step::Probing && match endpoint {
            crate::probe::Endpoint::Login => t.probe.phase == Phase::Live,
            crate::probe::Endpoint::Health => t.probe.phase == Phase::Spawned,
            crate::probe::Endpoint::Root => true,
        },
        CommandView::Terminate => t.step == Step::Exited && s.step != Step::Exited,
        _ => true,
    }
}

/// Each of the commands is in order where the supervisor goes from `s` to
/// `t`.
pub open spec fn spec_all_fit(s: SupervisorView, t: SupervisorView, cmds: Seq<CommandView>) -> bool {
    forall|i: int| 0 <= i < cmds.len() ==> spec_command_fits(s, t, #[trigger] cmds[i])
}

/// The commands are in order where the supervisor goes from `s` to `t`: each
/// of them is, and on the way into `Exited` they hold the report of an error,
/// end with the exit, and, where a child was spawned, terminate it first.
pub open spec fn spec_orderly(s: SupervisorView, t: SupervisorView, cmds: Seq<CommandView>) -> bool {
    let failing = t.step == Step::Exited && s.step != Step::Exited;
    &&& spec_all_fit(s, t, cmds)
    &&& failing ==> exists|i: int| 0 <= i < cmds.len() && spec_is_error_report(#[trigger] cmds[i])
    &&& failing ==> cmds.len() > 0 && cmds.last() == (CommandView::Exit {
        code: spec_failure_code(),
    })
    &&& failing && spec_after_spawn(s.step) ==> exists|i: int|
        0 <= i < cmds.len() - 1 && #[trigger] cmds[i] == CommandView::Terminate
}

/// Commands that are in order one by one are in order when put together.
pub proof fn lemma_concat_fits(
    s: SupervisorView,
    t: SupervisorView,
    a: Seq<CommandView>,
    b: Seq<CommandView>,
)
    requires
        spec_all_fit(s, t, a),
        spec_all_fit(s, t, b),
    ensures
        spec_all_fit(s, t, a + b),
{
    assert forall|i: int| 0 <= i < (a + b).len() implies spec_command_fits(
        s,
        t,
        #[trigger] (a + b)[i],
    ) by {
        if i < a.len() {
            assert((a + b)[i] == a[i]);
        } else {
            assert((a + b)[i] == b[i - a.len()]);
        }
    }
}

/// Putting stages on show is in order wherever the supervisor goes.
pub proof fn lemma_emit_all_fits(
    s: SupervisorView,
    t: SupervisorView,
    shown: u32,
    stages: Seq<Stage>,
)
    ensures
        spec_all_fit(s, t, spec_emit_all(shown, stages)),
        spec_all_fit(s, t, spec_emit(shown, stages.last())),
{
    lemma_emit_all_is_display(shown, stages);
    lemma_emit_is_display(shown, stages.last());
    assert forall|i: int| 0 <= i < spec_emit_all(shown, stages).len() implies spec_command_fits(
        s,
        t,
        #[trigger] spec_emit_all(shown, stages)[i],
    ) by {
        assert(spec_is_display(spec_emit_all(shown, stages)[i]));
    }
    assert forall|i: int|
        0 <= i < spec_emit(shown, stages.last()).len() implies spec_command_fits(
        s,
        t,
        #[trigger] spec_emit(shown, stages.last())[i],
    ) by {
        assert(spec_is_display(spec_emit(shown, stages.last())[i]));
    }
}

/// Giving up after commands that are in order is in order on the way into
/// `Exited`.
pub proof fn lemma_give_up_orderly(
    s: SupervisorView,
    t: SupervisorView,
    before: Seq<CommandView>,
    event: ProgressEventView,
    spawned: bool,
)
    requires
        t.step == Step::Exited,
        s.step != Step::Exited,
        spec_all_fit(s, t, before),
        event.is_error,
        event.progress is None,
        spec_after_spawn(s.step) ==> spawned,
    ensures
        spec_orderly(s, t, before + spec_give_up(event, spawned)),
{
    let end = spec_give_up(event, spawned);
    let cmds = before + end;
    assert(end[0] == CommandView::Report(event));
    assert(end.last() == CommandView::Exit { code: spec_failure_code() });
    assert(spec_all_fit(s, t, end));
    lemma_concat_fits(s, t, before, end);
    assert(cmds[before.len() as int] == end[0]);
    assert(spec_is_error_report(cmds[before.len() as int]));
    assert(cmds.last() == end.last());
    if spawned {
        assert(end[2] == CommandView::Terminate);
        assert(cmds[before.len() as int + 2] == end[2]);
    }
}

/// Whatever the driver reports in whatever state, the commands that the
/// supervisor hands out are in order.
pub proof fn lemma_handle_orderly(s: SupervisorView, input: Input)
    requires
        spec_valid(s),
    ensures
        spec_orderly(s, spec_handle(s, input).0, spec_handle(s, input).1),
{
    let (t, cmds) = spec_handle(s, input);
    let none = Seq::<CommandView>::empty();
    lemma_handle_valid(s, input);
    match s.step {
        Step::Resolving => {
            if let Input::Layout(layout) = input {
                lemma_emit_all_fits(s, t, s.shown, spec_resolved_stages());
                lemma_emit_all_fits(s, t, s.shown, seq![Stage::CheckingEntryFile]);
                match spec_choice(layout) {
                    Some((source, dir)) => {
                        lemma_concat_fits(
                            s,
                            t,
                            spec_emit_all(s.shown, spec_resolved_stages()),
                            seq![CommandView::Inspect { dir }],
                        );
                    },
                    None => {
                        lemma_give_up_orderly(
                            s,
                            t,
                            spec_emit(s.shown, Stage::CheckingEntryFile),
                            spec_failure_event(
                                spec_resolution_message(entry_paths(layout.spec_chain())),
                            ),
                            false,
                        );
                    },
                }
            }
        },
        Step::Inspecting => {
            if let Input::Inspected(probe) = input {
                lemma_emit_all_fits(s, t, s.shown, seq![Stage::StartingProcess]);
                lemma_concat_fits(
                    s,
                    t,
                    spec_emit(s.shown, Stage::StartingProcess),
                    seq![CommandView::Spawn { dir: spec_dir(s), plan: spec_plan(s.platform, probe) }],
                );
            }
        },
        Step::Spawning => {
            match input {
                Input::LogUnavailable { reason } => {
                    lemma_give_up_orderly(
                        s,
                        t,
                        none,
                        spec_failure_event(
                            spec_launch_message(LaunchErrorView::LogUnavailable { reason: reason@ }),
                        ),
                        false,
                    );
                    assert(none + cmds =~= cmds);
                },
                Input::SpawnFailed { reason } => {
                    lemma_give_up_orderly(
                        s,
                        t,
                        none,
                        spec_failure_event(
                            spec_launch_message(LaunchErrorView::SpawnFailed { reason: reason@ }),
                        ),
                        false,
                    );
                    assert(none + cmds =~= cmds);
                },
                _ => {},
            }
        },
        Step::Settling => {},
        Step::Checking => {
            if let Input::Settled(outcome) = input {
                match spec_settle_error(outcome) {
                    Some(error) => {
                        lemma_give_up_orderly(
                            s,
                            t,
                            none,
                            spec_failure_event(spec_launch_message(error)),
                            true,
                        );
                        assert(none + cmds =~= cmds);
                    },
                    None => {
                        if s.probe.phase == Phase::Failed {
                            lemma_on_probe_orderly(s, s.probe, s.probe);
                        }
                    },
                }
            }
        },
        Step::Probing => {
            if let Some(event) = spec_probe_event(input) {
                if spec_answers(s.probe, event) {
                    lemma_step_consistent(s.probe, event);
                    lemma_step_phase_order(s.probe, event);
                    lemma_on_probe_orderly(s, s.probe, spec_step(s.probe, event));
                }
            }
        },
        Step::Watching { round } => {
            if let Input::Indicator(seen) = input {
                if !(seen is None && round + 1 < spec_indicator_rounds()) {
                    let noticed = match seen {
                        Some(indicator) => seq![Stage::IndicatorSeen { round, indicator }],
                        None => Seq::empty(),
                    };
                    let shown = spec_shown_after(s.shown, noticed);
                    let settled = spec_shown_after(shown, spec_settled_stages());
                    let first = spec_first_attempt_stage(s.probe);
                    let a = spec_emit_all(s.shown, noticed);
                    let b = spec_emit_all(shown, spec_settled_stages());
                    let c = spec_emit_all(settled, first);
                    lemma_emit_all_fits(s, t, s.shown, noticed);
                    lemma_emit_all_fits(s, t, shown, spec_settled_stages());
                    lemma_emit_all_fits(s, t, settled, first);
                    lemma_concat_fits(s, t, a, b);
                    lemma_concat_fits(s, t, a + b, c);
                    lemma_concat_fits(
                        s,
                        t,
                        a + b + c,
                        seq![spec_action_command(spec_action(s.probe))],
                    );
                }
            }
        },
        Step::Done => {},
        Step::Exited => {},
    }
}

/// Following the health probe to its next state is in order, be it while
/// the probe is polling or when it had no attempt to make at all.
pub proof fn lemma_on_probe_orderly(s: SupervisorView, before: HealthProbe, after: HealthProbe)
    requires
        s.step == Step::Probing || s.step == Step::Checking,
        spec_consistent(before),
        spec_consistent(after),
        s.step == Step::Checking ==> before.phase == Phase::Failed && after == before,
        s.step == Step::Probing ==> before.phase == Phase::Spawned || before.phase
            == Phase::Live,
        before.phase == Phase::Live ==> after.phase != Phase::Spawned,
    ensures
        spec_orderly(s, spec_on_probe(s, before, after).0, spec_on_probe(s, before, after).1),
{
    let (t, cmds) = spec_on_probe(s, before, after);
    if after.phase == Phase::Failed {
        let record = seq![CommandView::RecordPhase(Phase::Failed)];
        lemma_give_up_orderly(
            s,
            t,
            record,
            if after.reached_live {
                spec_not_ready_event()
            } else {
                spec_failure_event(spec_not_responding_message())
            },
            true,
        );
    } else if after.phase == Phase::Ready {
        let record = seq![CommandView::RecordPhase(Phase::Ready)];
        let show = seq![
            CommandView::Hold { millis: spec_show_delay_millis() },
            CommandView::ShowWindow,
            CommandView::Hold { millis: spec_splash_linger_millis() },
            CommandView::CloseSplash,
        ];
        lemma_emit_all_fits(s, t, s.shown, spec_ready_stages());
        lemma_concat_fits(s, t, record, spec_emit_all(s.shown, spec_ready_stages()));
        lemma_concat_fits(s, t, record + spec_emit_all(s.shown, spec_ready_stages()), show);
    } else if after.phase == Phase::Live && before.phase != Phase::Live {
        let record = seq![CommandView::RecordPhase(Phase::Live)];
        let look = seq![
            CommandView::Hold { millis: spec_indicator_interval_millis() },
            CommandView::LookForIndicator,
        ];
        lemma_emit_all_fits(s, t, s.shown, spec_live_stages());
        lemma_concat_fits(s, t, record, spec_emit_all(s.shown, spec_live_stages()));
        lemma_concat_fits(s, t, record + spec_emit_all(s.shown, spec_live_stages()), look);
    } else {
        let waited = spec_wait_stage(before);
        let shown = spec_shown_after(s.shown, waited);
        let begun = spec_attempt_stage(before, after);
        lemma_emit_all_fits(s, t, s.shown, waited);
        lemma_emit_all_fits(s, t, shown, begun);
        lemma_concat_fits(s, t, spec_emit_all(s.shown, waited), spec_emit_all(shown, begun));
        lemma_concat_fits(
            s,
            t,
            spec_emit_all(s.shown, waited) + spec_emit_all(shown, begun),
            seq![spec_action_command(spec_action(after))],
        );
    }
}

/// The supervisor after it has begun and was given `inputs` one after the
/// other.
pub open spec fn spec_course(platform: Platform, config: ProbeConfig, inputs: Seq<Input>) -> SupervisorView
    decreases inputs.len(),
{
    if inputs.len() == 0 {
        spec_begin(platform, config).0
    } else {
        spec_handle(spec_course(platform, config, inputs.drop_last()), inputs.last()).0
    }
}

/// Every state in the course of a startup is valid, and the commands handed
/// out at every point of it are in order.
pub proof fn lemma_course_orderly(platform: Platform, config: ProbeConfig, inputs: Seq<Input>)
    ensures
        spec_valid(spec_course(platform, config, inputs)),
        inputs.len() > 0 ==> ({
            let s = spec_course(platform, config, inputs.drop_last());
            spec_orderly(s, spec_handle(s, inputs.last()).0, spec_handle(s, inputs.last()).1)
        }),
    decreases inputs.len(),
{
    if inputs.len() == 0 {
        lemma_begin_valid(platform, config);
    } else {
        lemma_course_orderly(platform, config, inputs.drop_last());
        let s = spec_course(platform, config, inputs.drop_last());
        lemma_handle_valid(s, inputs.last());
        lemma_handle_orderly(s, inputs.last());
    }
}

/// The working directory becomes known in one way only: the host's
/// directories are reported while the supervisor waits for them, and one of
/// them holds the entry file. So nothing is ever spawned, and no directory is
/// ever inspected, where the entry file is missing everywhere.
pub proof fn lemma_directory_comes_from_resolution(s: SupervisorView, input: Input)
    ensures
        spec_handle(s, input).0.working_directory != s.working_directory ==> s.step
            == Step::Resolving && input is Layout && spec_choice(input->Layout_0) is Some
            && spec_handle(s, input).0.working_directory == Some(
            spec_choice(input->Layout_0)->Some_0.1,
        ),
        s.step == Step::Resolving && input is Layout && spec_choice(input->Layout_0) is None
            ==> spec_handle(s, input).0.step == Step::Exited,
{
}

/// Once the supervisor has come to rest, in `Done` or in `Exited`, nothing
/// that the driver reports moves it or makes it ask for anything.
pub proof fn lemma_rest_is_final(s: SupervisorView, input: Input)
    requires
        s.step == Step::Done || s.step == Step::Exited,
    ensures
        spec_handle(s, input) == (s, Seq::<CommandView>::empty()),
{
}

} // verus!
