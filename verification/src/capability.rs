//! The capability plugins of the shell and the order in which they are attached.

use crate::platform::Target;
use vstd::prelude::*;

verus! {

/// One self-contained ability that the shell grants the application.
#[derive(Clone, Copy, PartialEq, Eq, Debug, Structural)]
pub enum Capability {
    /// Dispatch of desktop notifications.
    Notification,
    /// Execution of shell commands.
    Shell,
    /// Access to an HTTP client.
    Http,
    /// Control over the application's own process.
    Process,
    /// Opening of URLs and files with the system's handlers.
    Opener,
    /// Redirection of a second launch to the instance that already runs.
    SingleInstance,
}

/// The capabilities that every shell has, in the order of their attachment.
pub open spec fn base_capabilities() -> Seq<Capability> {
    seq![
        Capability::Notification,
        Capability::Shell,
        Capability::Http,
        Capability::Process,
        Capability::Opener,
    ]
}

/// The capabilities of a shell built for `target`, in the order of their
/// attachment: the base capabilities, followed on a desktop target by the
/// single-instance guard.
pub open spec fn plan_of(target: Target) -> Seq<Capability> {
    match target {
        Target::Desktop => base_capabilities().push(Capability::SingleInstance),
        Target::Mobile => base_capabilities(),
    }
}

/// The capabilities to attach on `target`, first to last.
pub fn capability_plan(target: Target) -> (plan: Vec<Capability>)
    ensures
        plan@ == plan_of(target),
{
    let mut plan: Vec<Capability> = Vec::new();
    plan.push(Capability::Notification);
    plan.push(Capability::Shell);
    plan.push(Capability::Http);
    plan.push(Capability::Process);
    plan.push(Capability::Opener);
    match target {
        Target::Desktop => {
            plan.push(Capability::SingleInstance);
        },
        Target::Mobile => {},
    }
    plan
}

/// The capability at position `index` of the plan for `target`, if the plan
/// is that long.
pub fn capability_at(target: Target, index: usize) -> (capability: Option<Capability>)
    ensures
        capability == (if index < plan_of(target).len() {
            Some(plan_of(target)[index as int])
        } else {
            None
        }),
{
    let plan = capability_plan(target);
    if index < plan.len() {
        Some(plan[index])
    } else {
        None
    }
}

} // verus!
