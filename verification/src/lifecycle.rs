//! The life of the shell process, from launch to exit.
//!
//! The host performs the work (attaching plugins, entering the event loop) and
//! reports what happened as an [`Event`]; [`Lifecycle::step`] decides what
//! comes next and answers with a [`Command`].

use crate::capability::{capability_at, plan_of, Capability};
use crate::logging::{log_sink, sink_of, LogSink, Severity};
use crate::platform::{BuildConfig, Profile};
use vstd::prelude::*;

verus! {

/// The coarse phases of the process.
#[derive(Clone, Copy, PartialEq, Eq, Debug, Structural)]
pub enum Phase {
    /// Nothing has happened yet.
    Uninitialized,
    /// The application is being assembled and set up.
    Configuring,
    /// The event loop runs and the application is set up.
    Running,
    /// The process is over.
    Terminated,
}

/// How a process came to its end.
#[derive(Clone, Copy, PartialEq, Eq, Debug, Structural)]
pub enum Ending {
    /// The event loop was left in the ordinary way.
    Clean,
    /// The setup step failed because the logging facility could not be attached.
    SetupFailure,
    /// The event loop could not be started.
    RunFailure,
}

/// Where exactly the process stands.
#[derive(Clone, Copy, PartialEq, Eq, Debug, Structural)]
pub enum Stage {
    /// Nothing has happened yet.
    Uninitialized,
    /// The capability at this position of the plan is being attached.
    Attaching(usize),
    /// The application was handed to the framework, whose setup step has not
    /// been reached yet.
    Starting,
    /// The setup step waits for the logging facility to be attached.
    AttachingLogger,
    /// The setup step is done and the event loop runs.
    Running,
    /// The process is over.
    Terminated(Ending),
}

/// What the host reports to the lifecycle.
#[derive(Clone, Copy, PartialEq, Eq, Debug, Structural)]
pub enum Event {
    /// The entry point of the process was called.
    Launch,
    /// The capability that was asked for is attached.
    Attached,
    /// The framework has built the application and calls the setup step.
    SetupReached,
    /// The logging facility is attached.
    LoggerAttached,
    /// The logging facility could not be attached.
    LoggerFailed,
    /// The framework could not start the event loop.
    RunFailed,
    /// The event loop was left in the ordinary way.
    LoopExited,
}

/// What the lifecycle asks of the host.
#[derive(Clone, Copy, PartialEq, Eq, Debug, Structural)]
pub enum Command {
    /// Attach this capability, then report [`Event::Attached`].
    Attach(Capability),
    /// Hand the application to the framework and enter its blocking event
    /// loop. The framework reports [`Event::SetupReached`] from inside the
    /// loop, or the host reports [`Event::RunFailed`] or [`Event::LoopExited`]
    /// when the call returns.
    EnterLoop,
    /// Attach a logging facility that passes records of this severity and
    /// above, then report [`Event::LoggerAttached`] or [`Event::LoggerFailed`].
    AttachLogger(Severity),
    /// Announce the start and return success from the setup step.
    CompleteSetup,
    /// Return the failure of the logging facility from the setup step, which
    /// ends the process.
    FailSetup,
    /// End the process at once with the diagnostic of [`run_failure_message`].
    Abort,
    /// Return from the entry point: the process ends in the ordinary way.
    Exit,
    /// There is nothing to do: the event does not belong here and is ignored.
    Nothing,
}

impl Stage {
    /// The phase that the stage belongs to.
    pub open spec fn spec_phase(self) -> Phase {
        match self {
            Stage::Uninitialized => Phase::Uninitialized,
            Stage::Attaching(_) | Stage::Starting | Stage::AttachingLogger => Phase::Configuring,
            Stage::Running => Phase::Running,
            Stage::Terminated(_) => Phase::Terminated,
        }
    }

    /// The phase that the stage belongs to.
    #[verifier::when_used_as_spec(spec_phase)]
    pub fn phase(self) -> (phase: Phase)
        ensures
            phase == self.spec_phase(),
    {
        match self {
            Stage::Uninitialized => Phase::Uninitialized,
            Stage::Attaching(_) => Phase::Configuring,
            Stage::Starting => Phase::Configuring,
            Stage::AttachingLogger => Phase::Configuring,
            Stage::Running => Phase::Running,
            Stage::Terminated(_) => Phase::Terminated,
        }
    }
}

/// The stage and command for attaching the capability at position `index`
/// of the plan, or for entering the event loop when the plan is exhausted.
pub open spec fn attach_or_start(config: BuildConfig, index: int) -> (Stage, Command) {
    let plan = plan_of(config.target);
    if 0 <= index < plan.len() {
        (Stage::Attaching(index as usize), Command::Attach(plan[index]))
    } else {
        (Stage::Starting, Command::EnterLoop)
    }
}

/// The stage that follows `stage` when `event` is reported, and the command
/// that answers the event. An event that does not belong to the stage changes
/// nothing and is answered with [`Command::Nothing`].
pub open spec fn transition(config: BuildConfig, stage: Stage, event: Event) -> (Stage, Command) {
    match (stage, event) {
        (Stage::Uninitialized, Event::Launch) => attach_or_start(config, 0),
        (Stage::Attaching(index), Event::Attached) => attach_or_start(config, index + 1),
        (Stage::Starting, Event::SetupReached) => match sink_of(config.profile) {
            LogSink::Active(floor) => (Stage::AttachingLogger, Command::AttachLogger(floor)),
            LogSink::Null => (Stage::Running, Command::CompleteSetup),
        },
        (Stage::Starting, Event::RunFailed) => (
            Stage::Terminated(Ending::RunFailure),
            Command::Abort,
        ),
        (Stage::AttachingLogger, Event::LoggerAttached) => (Stage::Running, Command::CompleteSetup),
        (Stage::AttachingLogger, Event::LoggerFailed) => (
            Stage::Terminated(Ending::SetupFailure),
            Command::FailSetup,
        ),
        (Stage::Running, Event::LoopExited) => (Stage::Terminated(Ending::Clean), Command::Exit),
        _ => (stage, Command::Nothing),
    }
}

/// The lifecycle of one shell process.
#[derive(Clone, Copy, PartialEq, Eq, Debug, Structural)]
pub struct Lifecycle {
    /// What the shell was built as.
    pub config: BuildConfig,
    /// Where the process stands.
    pub stage: Stage,
}

impl Lifecycle {
    /// Whether the stage fits the configuration. Every lifecycle that was
    /// made by [`Lifecycle::new`] and changed by [`Lifecycle::step`] alone is
    /// well formed.
    pub open spec fn well_formed(self) -> bool {
        consistent(self.config, self.stage)
    }

    /// The lifecycle of a process that has not been launched yet.
    pub fn new(config: BuildConfig) -> (life: Lifecycle)
        ensures
            life == (Lifecycle { config, stage: Stage::Uninitialized }),
            life.well_formed(),
    {
        Lifecycle { config, stage: Stage::Uninitialized }
    }

    /// Takes note of `event` and answers with what the host has to do next.
    pub fn step(&mut self, event: Event) -> (command: Command)
        ensures
            final(self).config == old(self).config,
            (final(self).stage, command) == transition(old(self).config, old(self).stage, event),
            old(self).well_formed() ==> final(self).well_formed(),
    {
        let (stage, command) = match (self.stage, event) {
            (Stage::Uninitialized, Event::Launch) => Self::attach_from(self.config, 0),
            (Stage::Attaching(index), Event::Attached) => {
                if index < usize::MAX {
                    Self::attach_from(self.config, index + 1)
                } else {
                    (Stage::Starting, Command::EnterLoop)
                }
            },
            (Stage::Starting, Event::SetupReached) => match log_sink(self.config.profile) {
                LogSink::Active(floor) => (Stage::AttachingLogger, Command::AttachLogger(floor)),
                LogSink::Null => (Stage::Running, Command::CompleteSetup),
            },
            (Stage::Starting, Event::RunFailed) => (
                Stage::Terminated(Ending::RunFailure),
                Command::Abort,
            ),
            (Stage::AttachingLogger, Event::LoggerAttached) => (
                Stage::Running,
                Command::CompleteSetup,
            ),
            (Stage::AttachingLogger, Event::LoggerFailed) => (
                Stage::Terminated(Ending::SetupFailure),
                Command::FailSetup,
            ),
            (Stage::Running, Event::LoopExited) => (Stage::Terminated(Ending::Clean), Command::Exit),
            (stage, _) => (stage, Command::Nothing),
        };
        self.stage = stage;
        command
    }

    /// Asks for the capability at position `index` of the plan, or for the
    /// event loop when the plan has no such position.
    fn attach_from(config: BuildConfig, index: usize) -> (next: (Stage, Command))
        ensures
            next == attach_or_start(config, index as int),
    {
        match capability_at(config.target, index) {
            Some(capability) => (Stage::Attaching(index), Command::Attach(capability)),
            None => (Stage::Starting, Command::EnterLoop),
        }
    }
}

/// Whether `stage` fits a shell built as `config`: a capability that is being
/// attached belongs to the plan, and the logging facility is waited for, or
/// has failed, only where the profile has a sink.
pub open spec fn consistent(config: BuildConfig, stage: Stage) -> bool {
    match stage {
        Stage::Attaching(index) => index < plan_of(config.target).len(),
        Stage::AttachingLogger | Stage::Terminated(Ending::SetupFailure) => sink_of(
            config.profile,
        ) is Active,
        _ => true,
    }
}

/// A fresh lifecycle is consistent, and no event leads from a consistent
/// stage to one that is not.
pub proof fn lemma_consistency_is_kept(config: BuildConfig, stage: Stage, event: Event)
    ensures
        consistent(config, Stage::Uninitialized),
        consistent(config, stage) ==> consistent(config, transition(config, stage, event).0),
{
}

/// The phases follow one another in one direction only: from uninitialized to
/// configuring, from configuring to running or terminated, and from running to
/// terminated.
pub proof fn lemma_phases_advance(config: BuildConfig, stage: Stage, event: Event)
    ensures
        ({
            let before = stage.phase();
            let after = transition(config, stage, event).0.phase();
            ||| after == before
            ||| before == Phase::Uninitialized && after == Phase::Configuring
            ||| before == Phase::Configuring && after == Phase::Running
            ||| before == Phase::Configuring && after == Phase::Terminated
            ||| before == Phase::Running && after == Phase::Terminated
        }),
{
}

/// Configuration ends in termination only when the logging facility cannot be
/// attached or the event loop cannot be started.
pub proof fn lemma_configuring_ends_only_on_failure(
    config: BuildConfig,
    stage: Stage,
    event: Event,
)
    requires
        stage.phase() == Phase::Configuring,
        transition(config, stage, event).0.phase() == Phase::Terminated,
    ensures
        (stage == Stage::AttachingLogger && event == Event::LoggerFailed && transition(
            config,
            stage,
            event,
        ) == (Stage::Terminated(Ending::SetupFailure), Command::FailSetup)) || (stage
            == Stage::Starting && event == Event::RunFailed && transition(config, stage, event) == (
            Stage::Terminated(Ending::RunFailure),
            Command::Abort,
        )),
{
}

/// The event loop is entered only in answer to the report that the last
/// capability of the plan is attached.
pub proof fn lemma_loop_entered_once_plan_attached(
    config: BuildConfig,
    stage: Stage,
    event: Event,
)
    requires
        consistent(config, stage),
        transition(config, stage, event).1 == Command::EnterLoop,
    ensures
        stage == Stage::Attaching((plan_of(config.target).len() - 1) as usize),
        event == Event::Attached,
{
}

/// A logging facility is asked for only by the setup step of a development
/// build, and then with the floor `Info`.
pub proof fn lemma_logger_attached_only_in_debug(
    config: BuildConfig,
    stage: Stage,
    event: Event,
    floor: Severity,
)
    requires
        transition(config, stage, event).1 == Command::AttachLogger(floor),
    ensures
        config.profile == Profile::Debug,
        floor == Severity::Info,
        stage == Stage::Starting,
        event == Event::SetupReached,
{
}

/// The process starts to run only with the sink of its profile in place: in a
/// development build once the logging facility is attached, in a build for
/// distribution straight from the setup step, without any.
pub proof fn lemma_running_entered_with_sink_in_place(
    config: BuildConfig,
    stage: Stage,
    event: Event,
)
    requires
        consistent(config, stage),
        stage != Stage::Running,
        transition(config, stage, event).0 == Stage::Running,
    ensures
        config.profile == Profile::Debug ==> stage == Stage::AttachingLogger && event
            == Event::LoggerAttached,
        config.profile == Profile::Release ==> stage == Stage::Starting && event
            == Event::SetupReached,
{
}

/// The fixed diagnostic with which the process ends when the event loop
/// cannot be started.
pub fn run_failure_message() -> (message: &'static str)
    ensures
        message@ == "Error while running BetSure Dialer"@,
{
    "Error while running BetSure Dialer"
}

} // verus!
