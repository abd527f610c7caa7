//! The commands a tray sends to the UI thread, and what each one is aimed at.

use vstd::prelude::*;

verus! {

/// A request raised by the tray and carried out on the UI thread.
#[derive(Clone, Copy, Debug, PartialEq, Eq, Structural)]
pub enum TrayCommand {
    /// Bring the main window to the foreground.
    Show,
    /// Shut the application down.
    Quit,
}

/// The UI-side object a command acts on.
#[derive(Clone, Copy, Debug, PartialEq, Eq, Structural)]
pub enum Target {
    /// The main application window.
    Window,
    /// The application handle.
    Application,
}

/// What the UI layer is asked to do with a live target.
#[derive(Clone, Copy, Debug, PartialEq, Eq, Structural)]
pub enum Capability {
    /// Raise the window.
    Present,
    /// Begin an orderly shutdown.
    Terminate,
}

impl TrayCommand {
    /// The object this command acts on.
    pub open spec fn spec_target(self) -> Target {
        match self {
            TrayCommand::Show => Target::Window,
            TrayCommand::Quit => Target::Application,
        }
    }

    /// The object this command acts on.
    #[verifier::when_used_as_spec(spec_target)]
    pub fn target(self) -> (t: Target)
        ensures
            t == self.spec_target(),
    {
        match self {
            TrayCommand::Show => Target::Window,
            TrayCommand::Quit => Target::Application,
        }
    }
}

} // verus!
