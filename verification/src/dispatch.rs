//! What the UI thread does with what it receives from the queue.
//!
//! The UI thread holds its window and its application handle only weakly, so
//! either may be gone by the time a command arrives. A command whose target is
//! gone is skipped without complaint; the receive loop ends only when the
//! queue is closed.

use vstd::prelude::*;
use crate::command::{Capability, Target, TrayCommand};

verus! {

/// Which of the two weakly held targets could still be reached.
#[derive(Clone, Copy, Debug, PartialEq, Eq, Structural)]
pub struct LiveTargets {
    /// The main window is still there.
    pub window: bool,
    /// The application handle is still there.
    pub application: bool,
}

/// What a receive on the queue came back with.
#[derive(Clone, Copy, Debug, PartialEq, Eq, Structural)]
pub enum Received {
    /// A command from the tray.
    Command(TrayCommand),
    /// The queue is closed and empty: the tray thread has ended.
    Closed,
}

/// What the receive loop does next.
#[derive(Clone, Copy, Debug, PartialEq, Eq, Structural)]
pub enum DispatchStep {
    /// Use this capability of the command's target, then receive again.
    Invoke(Capability),
    /// Do nothing and receive again.
    Skip,
    /// Leave the loop.
    Stop,
}

impl Target {
    /// What a command asks of this target.
    pub open spec fn spec_capability(self) -> Capability {
        match self {
            Target::Window => Capability::Present,
            Target::Application => Capability::Terminate,
        }
    }

    /// What a command asks of this target.
    #[verifier::when_used_as_spec(spec_capability)]
    pub fn capability(self) -> (capability: Capability)
        ensures
            capability == self.spec_capability(),
    {
        match self {
            Target::Window => Capability::Present,
            Target::Application => Capability::Terminate,
        }
    }
}

impl LiveTargets {
    /// Whether `target` could still be reached.
    pub open spec fn spec_holds(self, target: Target) -> bool {
        match target {
            Target::Window => self.window,
            Target::Application => self.application,
        }
    }

    /// Whether `target` could still be reached.
    #[verifier::when_used_as_spec(spec_holds)]
    pub fn holds(self, target: Target) -> (live: bool)
        ensures
            live == self.spec_holds(target),
    {
        match target {
            Target::Window => self.window,
            Target::Application => self.application,
        }
    }
}

impl Received {
    /// The target whose weak handle has to be upgraded before `self` can be
    /// dispatched: that of the command, and none when the queue is closed.
    pub open spec fn spec_wanted(self) -> Option<Target> {
        match self {
            Received::Command(command) => Some(command.spec_target()),
            Received::Closed => None,
        }
    }

    /// The target whose weak handle has to be upgraded before `self` can be
    /// dispatched.
    #[verifier::when_used_as_spec(spec_wanted)]
    pub fn wanted(self) -> (target: Option<Target>)
        ensures
            target == self.spec_wanted(),
    {
        match self {
            Received::Command(command) => Some(command.target()),
            Received::Closed => None,
        }
    }
}

/// The step that follows `received` when the targets stand as in `live`.
pub open spec fn spec_dispatch(received: Received, live: LiveTargets) -> DispatchStep {
    match received {
        Received::Closed => DispatchStep::Stop,
        Received::Command(command) => if live.spec_holds(command.spec_target()) {
            DispatchStep::Invoke(command.spec_target().spec_capability())
        } else {
            DispatchStep::Skip
        },
    }
}

/// Decides what the receive loop does with `received`. `live` says which
/// targets an upgrade of the weak handles has just found.
#[verifier::when_used_as_spec(spec_dispatch)]
pub fn dispatch(received: Received, live: LiveTargets) -> (step: DispatchStep)
    ensures
        step == spec_dispatch(received, live),
{
    match received {
        Received::Closed => DispatchStep::Stop,
        Received::Command(command) => {
            let target: Target = command.target();
            if live.holds(target) {
                DispatchStep::Invoke(target.capability())
            } else {
                DispatchStep::Skip
            }
        },
    }
}

/// A command whose target is gone does nothing: `Show` without a window and
/// `Quit` without an application are skipped, and the loop goes on.
pub proof fn stale_target_is_skipped(command: TrayCommand, live: LiveTargets)
    requires
        !live.spec_holds(command.spec_target()),
    ensures
        spec_dispatch(Received::Command(command), live) == DispatchStep::Skip,
{
}

/// A command whose target is there invokes exactly its own capability:
/// `Show` presents the window and `Quit` terminates the application, whatever
/// the state of the other target.
pub proof fn live_target_is_invoked(command: TrayCommand, live: LiveTargets)
    requires
        live.spec_holds(command.spec_target()),
    ensures
        command == TrayCommand::Show ==> spec_dispatch(Received::Command(command), live)
            == DispatchStep::Invoke(Capability::Present),
        command == TrayCommand::Quit ==> spec_dispatch(Received::Command(command), live)
            == DispatchStep::Invoke(Capability::Terminate),
{
}

/// The receive loop ends when the queue is closed, and only then.
pub proof fn loop_ends_only_on_close(received: Received, live: LiveTargets)
    ensures
        spec_dispatch(received, live) == DispatchStep::Stop <==> received == Received::Closed,
{
}

/// Only the wanted target counts: two states of the targets that agree on it
/// lead to the same step. So a receive loop need not upgrade the other handle,
/// and none at all when the queue is closed.
pub proof fn only_the_wanted_target_counts(received: Received, one: LiveTargets, other: LiveTargets)
    requires
        received.spec_wanted() matches Some(target) ==> one.spec_holds(target) == other.spec_holds(
            target,
        ),
    ensures
        spec_dispatch(received, one) == spec_dispatch(received, other),
{
}

} // verus!
