//! Whole runs of the lifecycle: what holds of every sequence of events.

use crate::capability::{plan_of, Capability};
use crate::lifecycle::{consistent, transition, Command, Ending, Event, Stage};
use crate::logging::{sink_of, LogSink, Severity};
use crate::platform::{BuildConfig, Profile};
use vstd::prelude::*;

verus! {

/// The stage that is reached from `stage` when the events of `events` are
/// reported one after the other.
pub open spec fn stage_after(config: BuildConfig, stage: Stage, events: Seq<Event>) -> Stage
    decreases events.len(),
{
    if events.len() == 0 {
        stage
    } else {
        stage_after(config, transition(config, stage, events[0]).0, events.drop_first())
    }
}

/// The commands that answer the events of `events`, reported one after the
/// other from `stage`.
pub open spec fn commands_for(config: BuildConfig, stage: Stage, events: Seq<Event>) -> Seq<
    Command,
>
    decreases events.len(),
{
    if events.len() == 0 {
        Seq::empty()
    } else {
        let (next, command) = transition(config, stage, events[0]);
        seq![command] + commands_for(config, next, events.drop_first())
    }
}

/// The events of a startup up to the call of the framework: the launch, and
/// one report for each capability of the plan.
pub open spec fn startup_events(config: BuildConfig) -> Seq<Event> {
    seq![Event::Launch] + Seq::new(plan_of(config.target).len(), |i: int| Event::Attached)
}

/// The events of a setup step that succeeds: the call of the step and, where
/// the profile has a sink, the report that the logging facility is attached.
pub open spec fn setup_events(config: BuildConfig) -> Seq<Event> {
    match sink_of(config.profile) {
        LogSink::Active(_) => seq![Event::SetupReached, Event::LoggerAttached],
        LogSink::Null => seq![Event::SetupReached],
    }
}

/// Reporting `first` and then `second` leads where reporting `second` leads
/// from the stage that `first` led to.
pub proof fn lemma_stage_after_concat(
    config: BuildConfig,
    stage: Stage,
    first: Seq<Event>,
    second: Seq<Event>,
)
    ensures
        stage_after(config, stage, first + second) == stage_after(
            config,
            stage_after(config, stage, first),
            second,
        ),
    decreases first.len(),
{
    if first.len() == 0 {
        assert(first + second == second);
    } else {
        assert((first + second).drop_first() == first.drop_first() + second);
        lemma_stage_after_concat(
            config,
            transition(config, stage, first[0]).0,
            first.drop_first(),
            second,
        );
    }
}

/// Whatever is reported to a lifecycle whose stage fits its configuration,
/// the stage that it reaches fits too. A fresh lifecycle is such a one, so
/// this holds of every run from the launch on.
pub proof fn lemma_every_run_is_consistent(config: BuildConfig, stage: Stage, events: Seq<Event>)
    requires
        consistent(config, stage),
    ensures
        consistent(config, stage_after(config, stage, events)),
    decreases events.len(),
{
    if events.len() > 0 {
        lemma_every_run_is_consistent(
            config,
            transition(config, stage, events[0]).0,
            events.drop_first(),
        );
    }
}

/// Once the process is over, no event changes its stage, and every event is
/// answered with [`Command::Nothing`].
pub proof fn lemma_terminated_is_final(config: BuildConfig, stage: Stage, events: Seq<Event>)
    requires
        stage is Terminated,
    ensures
        stage_after(config, stage, events) == stage,
        commands_for(config, stage, events) == Seq::new(events.len(), |i: int| Command::Nothing),
    decreases events.len(),
{
    if events.len() > 0 {
        lemma_terminated_is_final(config, stage, events.drop_first());
    }
}

/// When the logging facility of a development build cannot be attached, the
/// setup step fails, the process is over, and whatever is reported later, it
/// never runs.
pub proof fn lemma_failed_logger_stops_startup(config: BuildConfig, later: Seq<Event>)
    requires
        config.profile == Profile::Debug,
    ensures
        transition(config, Stage::Starting, Event::SetupReached) == (
            Stage::AttachingLogger,
            Command::AttachLogger(Severity::Info),
        ),
        transition(config, Stage::AttachingLogger, Event::LoggerFailed) == (
            Stage::Terminated(Ending::SetupFailure),
            Command::FailSetup,
        ),
        stage_after(config, Stage::AttachingLogger, seq![Event::LoggerFailed] + later)
            == Stage::Terminated(Ending::SetupFailure),
{
    let events = seq![Event::LoggerFailed] + later;
    assert(events.drop_first() == later);
    lemma_terminated_is_final(config, Stage::Terminated(Ending::SetupFailure), later);
}

/// From the launch on, the capabilities of the plan are attached one by one in
/// the order of the plan, and the event loop is entered right after the last.
pub proof fn lemma_startup_follows_plan(config: BuildConfig)
    ensures
        commands_for(config, Stage::Uninitialized, startup_events(config)) == plan_of(
            config.target,
        ).map_values(|capability: Capability| Command::Attach(capability)).push(
            Command::EnterLoop,
        ),
        stage_after(config, Stage::Uninitialized, startup_events(config)) == Stage::Starting,
{
    let plan = plan_of(config.target);
    let reports = Seq::new(plan.len(), |i: int| Event::Attached);
    assert(startup_events(config).drop_first() == reports);
    lemma_rest_of_plan_attached(config, 0);
}

/// A startup whose setup step succeeds ends with the process running.
pub proof fn lemma_startup_reaches_running(config: BuildConfig)
    ensures
        stage_after(config, Stage::Uninitialized, startup_events(config) + setup_events(config))
            == Stage::Running,
{
    lemma_startup_follows_plan(config);
    lemma_stage_after_concat(
        config,
        Stage::Uninitialized,
        startup_events(config),
        setup_events(config),
    );
    reveal_with_fuel(stage_after, 3);
    let setup = setup_events(config);
    if sink_of(config.profile) is Active {
        assert(setup.drop_first() == seq![Event::LoggerAttached]);
        assert(setup.drop_first().drop_first() == Seq::<Event>::empty());
    } else {
        assert(setup.drop_first() == Seq::<Event>::empty());
    }
}

/// While the capability at position `index` is being attached, the reports
/// for it and for the capabilities after it are answered with the rest of the
/// plan, in order, and then with the call of the framework.
proof fn lemma_rest_of_plan_attached(config: BuildConfig, index: int)
    requires
        0 <= index < plan_of(config.target).len(),
    ensures
        ({
            let plan = plan_of(config.target);
            let reports = Seq::new((plan.len() - index) as nat, |i: int| Event::Attached);
            &&& seq![Command::Attach(plan[index])] + commands_for(
                config,
                Stage::Attaching(index as usize),
                reports,
            ) == plan.subrange(index, plan.len() as int).map_values(
                |capability: Capability| Command::Attach(capability),
            ).push(Command::EnterLoop)
            &&& stage_after(config, Stage::Attaching(index as usize), reports) == Stage::Starting
        }),
    decreases plan_of(config.target).len() - index,
{
    let plan = plan_of(config.target);
    let len = plan.len() as int;
    let reports = Seq::new((len - index) as nat, |i: int| Event::Attached);
    let rest = Seq::new((len - index - 1) as nat, |i: int| Event::Attached);
    let attach = |capability: Capability| Command::Attach(capability);
    let here = Stage::Attaching(index as usize);
    let next = transition(config, here, Event::Attached).0;
    assert(reports.drop_first() == rest);
    assert(stage_after(config, here, reports) == stage_after(config, next, rest));
    if index + 1 < len {
        lemma_rest_of_plan_attached(config, index + 1);
        assert(plan.subrange(index, len).map_values(attach).push(Command::EnterLoop) == seq![
            Command::Attach(plan[index]),
        ] + plan.subrange(index + 1, len).map_values(attach).push(Command::EnterLoop));
    } else {
        assert(commands_for(config, Stage::Starting, rest) == Seq::<Command>::empty());
        assert(plan.subrange(index, len).map_values(attach).push(Command::EnterLoop) == seq![
            Command::Attach(plan[index]),
            Command::EnterLoop,
        ]);
    }
}

} // verus!
