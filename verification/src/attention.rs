//! The command surface: the single command `flash_taskbar`, which asks the
//! host to draw the user's attention to the calling window.

use vstd::prelude::*;

verus! {

/// How urgently the host is asked to signal a window.
#[derive(Clone, Copy, Debug, PartialEq, Eq, Structural)]
pub enum AttentionKind {
    /// The most insistent signal that the platform offers.
    Critical,
    /// The milder signal: a flashing taskbar entry, a bouncing dock icon, or
    /// what the desktop offers in their place.
    Informational,
}

/// The commands that the front end may invoke. There is exactly one.
#[derive(Clone, Copy, Debug, PartialEq, Eq, Structural)]
pub enum Command {
    /// Ask for the user's attention to the calling window.
    FlashTaskbar,
}

impl Command {
    /// The name by which the front end invokes the command.
    pub fn name(self) -> (name: &'static str)
        ensures
            name@ == "flash_taskbar"@,
    {
        "flash_taskbar"
    }

    /// The urgency with which the command signals the window.
    pub open spec fn attention(self) -> AttentionKind {
        AttentionKind::Informational
    }
}

/// What the host reported when it could not perform a request.
#[derive(Debug)]
pub struct HostError {
    /// The host error, in the words the host displays it with.
    pub message: String,
}

impl View for HostError {
    type V = Seq<char>;

    open spec fn view(&self) -> Seq<char> {
        self.message@
    }
}

/// The reply that the front end receives for a `flash_taskbar` invocation
/// whose attention request ended with `outcome`: success without a payload
/// where the host performed the request, else a failure that carries the
/// host's message.
pub open spec fn command_reply(outcome: Result<(), HostError>) -> Result<(), String> {
    match outcome {
        Ok(_) => Ok(()),
        Err(e) => Err(e.message),
    }
}

/// Turns the outcome of the attention request into the command's reply.
///
/// The failure is handed to the caller as text; it is neither retried nor
/// handled here.
pub fn flash_taskbar(outcome: Result<(), HostError>) -> (reply: Result<(), String>)
    ensures
        reply == command_reply(outcome),
        outcome is Ok <==> reply is Ok,
        outcome is Err ==> reply is Err && reply->Err_0@ == outcome->Err_0@,
{
    match outcome {
        Ok(_) => Ok(()),
        Err(e) => Err(e.message),
    }
}

/// A failed request is answered with a failure that carries the host's
/// message as it came: the text is not empty wherever the host's is not.
pub proof fn failure_reply_carries_host_message(outcome: Result<(), HostError>)
    requires
        outcome is Err,
    ensures
        command_reply(outcome) is Err,
        command_reply(outcome)->Err_0@ == outcome->Err_0@,
        outcome->Err_0@.len() > 0 ==> command_reply(outcome)->Err_0@.len() > 0,
{
}

} // verus!
