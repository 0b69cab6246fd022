//! The interactive shell in a container: what to do with each thing that
//! happens on the local terminal or the remote process.

use vstd::prelude::*;

verus! {

/// Something that happened while the shell runs.
#[derive(Clone, Copy, PartialEq, Eq, Structural, Debug)]
pub enum ShellEvent {
    /// The local terminal produced input.
    LocalInput,
    /// The local input ended or failed.
    LocalClosed,
    /// The remote process produced output.
    RemoteOutput,
    /// The remote output ended or failed.
    RemoteClosed,
    /// The task that reports terminal size changes ended; `true` when it
    /// ended normally.
    ResizeEnded(bool),
}

/// What the shell does next.
#[derive(Clone, Copy, PartialEq, Eq, Structural, Debug)]
pub enum ShellAction {
    /// Write the input to the remote process.
    SendToRemote,
    /// Write the output to the local terminal and flush it.
    ShowLocally,
    /// Report how the resize task ended and go on.
    ReportResizeEnd(bool),
    /// Leave the shell and restore the terminal.
    Stop,
}

/// The decisions of the shell: input goes to the process, output to the
/// terminal, the end of either stream ends the shell, and the end of the
/// resize task is reported without ending it.
pub open spec fn shell_reaction(event: ShellEvent) -> ShellAction {
    match event {
        ShellEvent::LocalInput => ShellAction::SendToRemote,
        ShellEvent::RemoteOutput => ShellAction::ShowLocally,
        ShellEvent::ResizeEnded(ok) => ShellAction::ReportResizeEnd(ok),
        ShellEvent::LocalClosed => ShellAction::Stop,
        ShellEvent::RemoteClosed => ShellAction::Stop,
    }
}

/// What the shell does with `event` (see [`shell_reaction`]).
pub fn shell_step(event: ShellEvent) -> (a: ShellAction)
    ensures
        a == shell_reaction(event),
{
    match event {
        ShellEvent::LocalInput => ShellAction::SendToRemote,
        ShellEvent::RemoteOutput => ShellAction::ShowLocally,
        ShellEvent::ResizeEnded(ok) => ShellAction::ReportResizeEnd(ok),
        ShellEvent::LocalClosed => ShellAction::Stop,
        ShellEvent::RemoteClosed => ShellAction::Stop,
    }
}

/// The shell ends exactly when one of its two streams ends.
pub proof fn lemma_shell_stops_only_on_closed_stream(event: ShellEvent)
    ensures
        shell_reaction(event) == ShellAction::Stop <==> (event == ShellEvent::LocalClosed || event
            == ShellEvent::RemoteClosed),
{
}

} // verus!
