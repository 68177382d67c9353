//! What holds of a shell over every course of events.

use crate::attention::AttentionKind;
use crate::lifecycle::Action;
use crate::lifecycle::Event;
use crate::lifecycle::Exit;
use crate::lifecycle::Fatal;
use crate::lifecycle::Phase;
use crate::lifecycle::Shell;
use vstd::prelude::*;

verus! {

/// The shell that `shell` has become once the host has reported `events`,
/// first to last.
pub open spec fn after(shell: Shell, events: Seq<Event>) -> Shell
    decreases events.len(),
{
    if events.len() == 0 {
        shell
    } else {
        after(shell.step_spec(events[0]).0, events.drop_first())
    }
}

/// What the shell asks of the host on the event at `index`, the events
/// before it having been reported to `shell`.
pub open spec fn action_at(shell: Shell, events: Seq<Event>, index: int) -> Action {
    after(shell, events.take(index)).step_spec(events[index]).1
}

/// No course of events takes a shell out of the states that it can be in,
/// nor changes the build that it was compiled as.
pub proof fn well_formed_is_kept(shell: Shell, events: Seq<Event>)
    requires
        shell.well_formed(),
    ensures
        after(shell, events).well_formed(),
        after(shell, events).profile == shell.profile,
    decreases events.len(),
{
    if events.len() > 0 {
        well_formed_is_kept(shell.step_spec(events[0]).0, events.drop_first());
    }
}

/// In a debug build the developer tools are open whenever the shell serves
/// commands: setup has opened them, and nothing closes them.
pub proof fn debug_shell_runs_with_devtools(shell: Shell, events: Seq<Event>)
    requires
        shell.well_formed(),
        shell.profile is Debug,
    ensures
        after(shell, events).serves_commands() ==> after(shell, events).devtools_open,
{
    well_formed_is_kept(shell, events);
}

/// In a release build the developer tools are never open, and no event makes
/// the shell ask for them.
pub proof fn release_shell_never_opens_devtools(shell: Shell, events: Seq<Event>)
    requires
        shell.well_formed(),
        shell.profile is Release,
    ensures
        !after(shell, events).devtools_open,
        forall|i: int|
            0 <= i < events.len() ==> action_at(shell, events, i) != Action::OpenDevtools,
{
    well_formed_is_kept(shell, events);
    assert forall|i: int| 0 <= i < events.len() implies action_at(shell, events, i)
        != Action::OpenDevtools by {
        well_formed_is_kept(shell, events.take(i));
    }
}

/// A terminated shell stays as it is, whatever the host reports.
pub proof fn terminated_shell_stays(shell: Shell, events: Seq<Event>)
    requires
        shell.phase is Terminated,
    ensures
        after(shell, events) == shell,
    decreases events.len(),
{
    if events.len() > 0 {
        terminated_shell_stays(shell, events.drop_first());
    }
}

/// Where the host fails to initialise, the shell aborts at once and for
/// good: it never comes to serve a command, and asks nothing more of the
/// host.
pub proof fn init_failure_is_final(shell: Shell, events: Seq<Event>)
    requires
        shell.phase is NotRunning,
        events.len() > 0,
        events[0] == Event::InitFailed,
    ensures
        action_at(shell, events, 0) == Action::Abort(Fatal::HostInit),
        after(shell, events).phase == Phase::Terminated(Exit::Crashed(Fatal::HostInit)),
        forall|i: int|
            0 <= i <= events.len() ==> !after(shell, events.take(i)).serves_commands(),
        forall|i: int| 0 < i < events.len() ==> action_at(shell, events, i) == Action::Nothing,
{
    let crashed = shell.step_spec(Event::InitFailed).0;
    assert(events.take(0).len() == 0);
    assert forall|i: int| 0 < i <= events.len() implies after(shell, events.take(i))
        == crashed by {
        assert(events.take(i)[0] == events[0]);
        terminated_shell_stays(crashed, events.take(i).drop_first());
    }
    assert(events.take(events.len() as int) =~= events);
}

/// Invocations do not change a running shell, and each of them is answered
/// with the same attention request, however many came before it.
pub proof fn invocations_leave_no_trace(shell: Shell, events: Seq<Event>)
    requires
        shell.phase is Running,
        forall|i: int| 0 <= i < events.len() ==> events[i] is Invoked,
    ensures
        after(shell, events) == shell,
        forall|i: int|
            0 <= i < events.len() ==> action_at(shell, events, i) == Action::RequestAttention(
                AttentionKind::Informational,
            ),
    decreases events.len(),
{
    if events.len() > 0 {
        invocations_leave_no_trace(shell, events.drop_first());
    }
    assert forall|i: int| 0 <= i < events.len() implies action_at(shell, events, i)
        == Action::RequestAttention(AttentionKind::Informational) by {
        invocations_leave_no_trace(shell, events.take(i));
    }
}

} // verus!
