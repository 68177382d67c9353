//! The life of the shell: not yet running, running, terminated.
//!
//! The host reports what happens to it as [`Event`]s. For each of them
//! [`Shell::step`] decides the next state and the one [`Action`] that the
//! caller performs on the host.

use crate::attention::AttentionKind;
use crate::attention::Command;
use vstd::prelude::*;

verus! {

/// The build that the shell was compiled as.
#[derive(Clone, Copy, Debug, PartialEq, Eq, Structural)]
pub enum BuildProfile {
    /// A development build: the developer tools open at setup.
    Debug,
    /// A production build: the developer tools are out of reach.
    Release,
}

/// Why the shell gave up.
#[derive(Clone, Copy, Debug, PartialEq, Eq, Structural)]
pub enum Fatal {
    /// The host runtime could not start.
    HostInit,
    /// No window is labelled `main`.
    MainWindowMissing,
}

impl Fatal {
    /// The message that the process terminates with.
    pub open spec fn description(self) -> Seq<char> {
        match self {
            Fatal::HostInit => "error while running tauri application"@,
            Fatal::MainWindowMissing => "no window is labelled `main`"@,
        }
    }

    /// The message that the process terminates with. It is never empty.
    pub fn message(self) -> (text: &'static str)
        ensures
            text@ == self.description(),
            text@.len() > 0,
    {
        proof {
            reveal_strlit("error while running tauri application");
            reveal_strlit("no window is labelled `main`");
        }
        match self {
            Fatal::HostInit => "error while running tauri application",
            Fatal::MainWindowMissing => "no window is labelled `main`",
        }
    }
}

/// How the shell came to its end.
#[derive(Clone, Copy, Debug, PartialEq, Eq, Structural)]
pub enum Exit {
    /// The user closed the application.
    Normal,
    /// The shell gave up, for the reason held.
    Crashed(Fatal),
}

/// Where the shell stands in its life.
#[derive(Clone, Copy, Debug, PartialEq, Eq, Structural)]
pub enum Phase {
    /// Setup has not completed; no command is served yet.
    NotRunning,
    /// Setup has completed and the host's loop serves commands.
    Running,
    /// The process is over.
    Terminated(Exit),
}

/// What the host reports to the shell.
#[derive(Clone, Copy, Debug, PartialEq, Eq, Structural)]
pub enum Event {
    /// The host runtime failed to initialise.
    InitFailed,
    /// The host runs the setup callback. `main_window_found` says whether the
    /// window that [`BuildProfile::devtools_window`] names could be resolved;
    /// it is not read where no window is named.
    Setup { main_window_found: bool },
    /// The front end invoked a command.
    Invoked(Command),
    /// The user closed the application.
    Closed,
}

/// What the shell asks of the host in answer to an event.
#[derive(Clone, Copy, Debug, PartialEq, Eq, Structural)]
pub enum Action {
    /// Nothing is asked.
    Nothing,
    /// Open the developer tools of the main window.
    OpenDevtools,
    /// Request the user's attention to the invoking window.
    RequestAttention(AttentionKind),
    /// Terminate the process with a message that tells the reason.
    Abort(Fatal),
}

/// The label of the primary window.
pub open spec fn main_window_label() -> Seq<char> {
    "main"@
}

impl BuildProfile {
    /// The window whose developer tools the setup callback opens: the main
    /// window in a debug build, none in a release build.
    pub fn devtools_window(self) -> (label: Option<&'static str>)
        ensures
            label is Some <==> self is Debug,
            label matches Some(l) ==> l@ == main_window_label(),
    {
        match self {
            BuildProfile::Debug => Some("main"),
            BuildProfile::Release => None,
        }
    }
}

/// The state of the shell.
#[derive(Clone, Copy, Debug, PartialEq, Eq, Structural)]
pub struct Shell {
    /// The build that the shell was compiled as.
    pub profile: BuildProfile,
    /// Where the shell stands in its life.
    pub phase: Phase,
    /// Whether the developer tools of the main window are open.
    pub devtools_open: bool,
}

impl Shell {
    /// The states that a shell can be in: the developer tools are open in
    /// exactly those that follow a completed setup of a debug build, and only
    /// a debug build gives up for want of the main window.
    pub open spec fn well_formed(self) -> bool {
        match self.phase {
            Phase::NotRunning => !self.devtools_open,
            Phase::Running => self.devtools_open == (self.profile is Debug),
            Phase::Terminated(Exit::Normal) => self.devtools_open == (self.profile is Debug),
            Phase::Terminated(Exit::Crashed(Fatal::HostInit)) => !self.devtools_open,
            Phase::Terminated(Exit::Crashed(Fatal::MainWindowMissing)) => {
                !self.devtools_open && self.profile is Debug
            },
        }
    }

    /// Whether the host's loop hands invocations of the front end to the
    /// command table.
    pub open spec fn serves_commands(self) -> bool {
        self.phase is Running
    }

    /// The shell as it is when the process starts.
    pub open spec fn initial(profile: BuildProfile) -> Shell {
        Shell { profile, phase: Phase::NotRunning, devtools_open: false }
    }

    /// The state that follows `self` on `event`, and what is asked of the
    /// host.
    ///
    /// Before setup, a failure of the host to initialise and, in a debug
    /// build, a missing main window are fatal; else setup starts the shell,
    /// and a debug build opens the developer tools. A running shell answers
    /// an invocation with the command's attention request and is not changed
    /// by it. A terminated shell stays as it is. An event that the host does
    /// not deliver in a phase changes nothing.
    pub open spec fn step_spec(self, event: Event) -> (Shell, Action) {
        match (self.phase, event) {
            (Phase::NotRunning, Event::InitFailed) => (
                Shell { phase: Phase::Terminated(Exit::Crashed(Fatal::HostInit)), ..self },
                Action::Abort(Fatal::HostInit),
            ),
            (Phase::NotRunning, Event::Setup { main_window_found }) => {
                if self.profile is Release {
                    (Shell { phase: Phase::Running, ..self }, Action::Nothing)
                } else if main_window_found {
                    (
                        Shell { phase: Phase::Running, devtools_open: true, ..self },
                        Action::OpenDevtools,
                    )
                } else {
                    (
                        Shell {
                            phase: Phase::Terminated(Exit::Crashed(Fatal::MainWindowMissing)),
                            ..self
                        },
                        Action::Abort(Fatal::MainWindowMissing),
                    )
                }
            },
            (Phase::Running, Event::Invoked(command)) => (
                self,
                Action::RequestAttention(command.attention()),
            ),
            (Phase::Running, Event::Closed) => (
                Shell { phase: Phase::Terminated(Exit::Normal), ..self },
                Action::Nothing,
            ),
            _ => (self, Action::Nothing),
        }
    }

    /// The shell as it is when the process starts: not running, the
    /// developer tools closed.
    pub fn new(profile: BuildProfile) -> (shell: Shell)
        ensures
            shell == Shell::initial(profile),
            shell.well_formed(),
    {
        Shell { profile, phase: Phase::NotRunning, devtools_open: false }
    }

    /// Takes the shell through `event` and returns what the caller is to do
    /// on the host.
    pub fn step(&mut self, event: Event) -> (action: Action)
        ensures
            (*final(self), action) == old(self).step_spec(event),
            old(self).well_formed() ==> final(self).well_formed(),
    {
        match self.phase {
            Phase::NotRunning => match event {
                Event::InitFailed => {
                    self.phase = Phase::Terminated(Exit::Crashed(Fatal::HostInit));
                    Action::Abort(Fatal::HostInit)
                },
                Event::Setup { main_window_found } => match self.profile {
                    BuildProfile::Release => {
                        self.phase = Phase::Running;
                        Action::Nothing
                    },
                    BuildProfile::Debug => {
                        if main_window_found {
                            self.phase = Phase::Running;
                            self.devtools_open = true;
                            Action::OpenDevtools
                        } else {
                            self.phase = Phase::Terminated(
                                Exit::Crashed(Fatal::MainWindowMissing),
                            );
                            Action::Abort(Fatal::MainWindowMissing)
                        }
                    },
                },
                _ => Action::Nothing,
            },
            Phase::Running => match event {
                Event::Invoked(command) => match command {
                    Command::FlashTaskbar => Action::RequestAttention(
                        AttentionKind::Informational,
                    ),
                },
                Event::Closed => {
                    self.phase = Phase::Terminated(Exit::Normal);
                    Action::Nothing
                },
                _ => Action::Nothing,
            },
            Phase::Terminated(_) => Action::Nothing,
        }
    }
}

} // verus!
