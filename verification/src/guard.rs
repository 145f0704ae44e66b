//! The single-instance guard: what the running instance does when a second
//! copy of the program is launched.
//!
//! The guard opens no window and raises no error. All it ever asks for is
//! that the main window of the running instance be looked up, focused and
//! restored, and it takes every outcome of these calls for an answer.

use crate::capability::{plan_of, Capability};
use crate::platform::Target;
use vstd::prelude::*;

verus! {

/// What a shell does about a second launch.
#[derive(Clone, Copy, PartialEq, Eq, Debug, Structural)]
pub enum LaunchPolicy {
    /// The running instance brings its main window to the front.
    FocusExisting,
    /// Nothing: instances are managed by the operating system.
    Unguarded,
}

/// How far the guard has come with a second launch.
#[derive(Clone, Copy, PartialEq, Eq, Debug, Structural)]
pub enum GuardState {
    /// No second launch is being handled.
    Idle,
    /// The main window is being looked up.
    Locating,
    /// The main window was asked to take the focus.
    Focusing,
    /// The main window was asked to leave the minimized state.
    Restoring,
}

/// What the host reports to the guard.
#[derive(PartialEq, Eq, Debug)]
pub enum GuardEvent {
    /// A second copy of the program was launched with these arguments, in
    /// this working directory.
    SecondLaunch { args: Vec<String>, cwd: String },
    /// The lookup found the main window.
    WindowFound,
    /// The lookup found no main window.
    WindowMissing,
    /// The focus call returned; the flag tells whether it succeeded.
    FocusDone(bool),
    /// The call that restores the window returned; the flag tells whether it
    /// succeeded.
    UnminimizeDone(bool),
}

/// What the guard asks of the host. Every request is about the main window of
/// the running instance.
#[derive(Clone, Copy, PartialEq, Eq, Debug, Structural)]
pub enum WindowRequest {
    /// Look up the window labelled [`main_window_label`], then report
    /// [`GuardEvent::WindowFound`] or [`GuardEvent::WindowMissing`].
    Locate,
    /// Ask the window to take the focus, then report [`GuardEvent::FocusDone`].
    Focus,
    /// Ask the window to leave the minimized state, then report
    /// [`GuardEvent::UnminimizeDone`].
    Unminimize,
    /// There is nothing to do.
    Nothing,
}

/// The policy of a shell built for `target`: desktop shells guard against a
/// second instance, mobile shells do not.
pub open spec fn policy_of(target: Target) -> LaunchPolicy {
    match target {
        Target::Desktop => LaunchPolicy::FocusExisting,
        Target::Mobile => LaunchPolicy::Unguarded,
    }
}

/// The policy to follow on `target`.
pub fn launch_policy(target: Target) -> (policy: LaunchPolicy)
    ensures
        policy == policy_of(target),
{
    match target {
        Target::Desktop => LaunchPolicy::FocusExisting,
        Target::Mobile => LaunchPolicy::Unguarded,
    }
}

/// The state that follows `state` when `event` is reported, and the request
/// that answers the event.
///
/// Under [`LaunchPolicy::FocusExisting`] every second launch starts with a
/// fresh lookup, whatever its arguments and working directory; a window that
/// is found is focused and then restored, whether or not the focus call
/// succeeded. An event that does not belong to the state changes nothing.
/// Under [`LaunchPolicy::Unguarded`] no event has any effect.
pub open spec fn guard_transition(policy: LaunchPolicy, state: GuardState, event: GuardEvent) -> (
    GuardState,
    WindowRequest,
) {
    match policy {
        LaunchPolicy::Unguarded => (state, WindowRequest::Nothing),
        LaunchPolicy::FocusExisting => match (state, event) {
            (_, GuardEvent::SecondLaunch { .. }) => (GuardState::Locating, WindowRequest::Locate),
            (GuardState::Locating, GuardEvent::WindowFound) => (
                GuardState::Focusing,
                WindowRequest::Focus,
            ),
            (GuardState::Locating, GuardEvent::WindowMissing) => (
                GuardState::Idle,
                WindowRequest::Nothing,
            ),
            (GuardState::Focusing, GuardEvent::FocusDone(_)) => (
                GuardState::Restoring,
                WindowRequest::Unminimize,
            ),
            (GuardState::Restoring, GuardEvent::UnminimizeDone(_)) => (
                GuardState::Idle,
                WindowRequest::Nothing,
            ),
            _ => (state, WindowRequest::Nothing),
        },
    }
}

/// The guard of one running instance.
#[derive(Clone, Copy, PartialEq, Eq, Debug, Structural)]
pub struct Guard {
    /// What the shell does about a second launch.
    pub policy: LaunchPolicy,
    /// How far the guard has come with the launch it handles.
    pub state: GuardState,
}

impl Guard {
    /// An idle guard that follows `policy`.
    pub fn new(policy: LaunchPolicy) -> (guard: Guard)
        ensures
            guard == (Guard { policy, state: GuardState::Idle }),
    {
        Guard { policy, state: GuardState::Idle }
    }

    /// Takes note of `event` and answers with what the host has to do next.
    pub fn step(&mut self, event: GuardEvent) -> (request: WindowRequest)
        ensures
            final(self).policy == old(self).policy,
            (final(self).state, request) == guard_transition(
                old(self).policy,
                old(self).state,
                event,
            ),
    {
        let (state, request) = match self.policy {
            LaunchPolicy::Unguarded => (self.state, WindowRequest::Nothing),
            LaunchPolicy::FocusExisting => match (self.state, event) {
                (_, GuardEvent::SecondLaunch { .. }) => (
                    GuardState::Locating,
                    WindowRequest::Locate,
                ),
                (GuardState::Locating, GuardEvent::WindowFound) => (
                    GuardState::Focusing,
                    WindowRequest::Focus,
                ),
                (GuardState::Locating, GuardEvent::WindowMissing) => (
                    GuardState::Idle,
                    WindowRequest::Nothing,
                ),
                (GuardState::Focusing, GuardEvent::FocusDone(_)) => (
                    GuardState::Restoring,
                    WindowRequest::Unminimize,
                ),
                (GuardState::Restoring, GuardEvent::UnminimizeDone(_)) => (
                    GuardState::Idle,
                    WindowRequest::Nothing,
                ),
                (state, _) => (state, WindowRequest::Nothing),
            },
        };
        self.state = state;
        request
    }
}

/// The label under which the framework knows the main window.
pub fn main_window_label() -> (label: &'static str)
    ensures
        label@ == "main"@,
{
    "main"
}

/// On a desktop target a second launch, whatever its arguments and working
/// directory and whatever the guard was doing, makes the running instance
/// look up its main window; a window that is found gets a focus request and
/// then a request to leave the minimized state, whether or not the focus call
/// succeeded; after that the guard is idle again.
pub proof fn lemma_second_launch_focuses_main_window(
    state: GuardState,
    args: Vec<String>,
    cwd: String,
    focused: bool,
    restored: bool,
)
    ensures
        ({
            let policy = policy_of(Target::Desktop);
            let (located, first) = guard_transition(
                policy,
                state,
                GuardEvent::SecondLaunch { args, cwd },
            );
            let (focusing, second) = guard_transition(policy, located, GuardEvent::WindowFound);
            let (restoring, third) = guard_transition(
                policy,
                focusing,
                GuardEvent::FocusDone(focused),
            );
            let (done, fourth) = guard_transition(
                policy,
                restoring,
                GuardEvent::UnminimizeDone(restored),
            );
            &&& first == WindowRequest::Locate
            &&& second == WindowRequest::Focus
            &&& third == WindowRequest::Unminimize
            &&& fourth == WindowRequest::Nothing
            &&& done == GuardState::Idle
        }),
{
}

/// Every window call has one cause: the window is looked up in answer to a
/// second launch, focused in answer to a lookup that found it, and restored in
/// answer to the return of the focus call. So one second launch leads to at
/// most one lookup, one focus call and one call that restores the window.
pub proof fn lemma_window_calls_have_one_cause(
    policy: LaunchPolicy,
    state: GuardState,
    event: GuardEvent,
)
    ensures
        ({
            let request = guard_transition(policy, state, event).1;
            &&& request != WindowRequest::Nothing ==> policy == LaunchPolicy::FocusExisting
            &&& request == WindowRequest::Locate ==> event is SecondLaunch
            &&& request == WindowRequest::Focus ==> state == GuardState::Locating
                && event is WindowFound
            &&& request == WindowRequest::Unminimize ==> state == GuardState::Focusing
                && event is FocusDone
        }),
{
}

/// When the main window cannot be found, the second launch ends there: the
/// guard asks for nothing more and is idle again.
pub proof fn lemma_missing_window_is_silent(state: GuardState, args: Vec<String>, cwd: String)
    ensures
        ({
            let policy = policy_of(Target::Desktop);
            let (located, first) = guard_transition(
                policy,
                state,
                GuardEvent::SecondLaunch { args, cwd },
            );
            let (done, second) = guard_transition(policy, located, GuardEvent::WindowMissing);
            &&& first == WindowRequest::Locate
            &&& second == WindowRequest::Nothing
            &&& done == GuardState::Idle
        }),
{
}

/// The arguments and the working directory of a second launch make no
/// difference to what the guard does.
pub proof fn lemma_launch_details_are_discarded(
    policy: LaunchPolicy,
    state: GuardState,
    args: Vec<String>,
    cwd: String,
    other_args: Vec<String>,
    other_cwd: String,
)
    ensures
        guard_transition(policy, state, GuardEvent::SecondLaunch { args, cwd })
            == guard_transition(
            policy,
            state,
            GuardEvent::SecondLaunch { args: other_args, cwd: other_cwd },
        ),
{
}

/// On a mobile target there is no guard: the plan attaches none, and no
/// event makes the shell do anything.
pub proof fn lemma_mobile_has_no_guard(state: GuardState, event: GuardEvent)
    ensures
        !plan_of(Target::Mobile).contains(Capability::SingleInstance),
        guard_transition(policy_of(Target::Mobile), state, event) == (
            state,
            WindowRequest::Nothing,
        ),
{
}

/// The plan attaches the guard exactly where the policy is to focus the
/// running instance, and then as its last capability.
pub proof fn lemma_guard_attached_where_policy_focuses(target: Target)
    ensures
        plan_of(target).contains(Capability::SingleInstance) <==> policy_of(target)
            == LaunchPolicy::FocusExisting,
        policy_of(target) == LaunchPolicy::FocusExisting ==> plan_of(target).last()
            == Capability::SingleInstance,
{
    let base = plan_of(Target::Mobile);
    assert(!base.contains(Capability::SingleInstance));
    if target == Target::Desktop {
        assert(plan_of(target)[5] == Capability::SingleInstance);
    }
}

} // verus!
