//! Decisions of the output loop that connects a decoding session to its
//! texture: which channel to wait on, what a command or an event leads to,
//! and how long to wait for the texture to be released.
use crate::dart_types::StreamState;
use crate::engine::input::{InputCommand, InputEvent};
use vstd::prelude::*;

verus! {

/// Requests sent to an output loop.
#[derive(Debug, Clone, Copy, PartialEq, Eq, Structural)]
pub enum OutputCommand {
    Terminate,
    Seek { ts: i64 },
}

/// What handling a command amounts to: the command passed on to the
/// decoding session, whether the texture is told to terminate, and whether
/// the loop ends.
pub struct CommandOutcome {
    pub forward: InputCommand,
    pub terminate_texture: bool,
    pub finished: bool,
}

/// Terminate is passed on, terminates the texture and ends the loop; a seek
/// is passed on and the loop goes on.
pub fn handle_command(session_id: i64, command: OutputCommand) -> (r: CommandOutcome)
    ensures
        match command {
            OutputCommand::Terminate => r.forward is Terminate && r.terminate_texture && r.finished,
            OutputCommand::Seek { ts } => (r.forward matches InputCommand::Seek { ts: t } && t == ts)
                && !r.terminate_texture && !r.finished,
        },
{
    let _ = session_id;
    match command {
        OutputCommand::Terminate => CommandOutcome {
            forward: InputCommand::Terminate,
            terminate_texture: true,
            finished: true,
        },
        OutputCommand::Seek { ts } => CommandOutcome {
            forward: InputCommand::Seek { ts },
            terminate_texture: false,
            finished: false,
        },
    }
}

/// What an event from the decoding session leads to.
pub enum EventAction {
    /// Tell the texture a new frame is ready.
    MarkFrameAvailable,
    /// Pass the state on to the UI.
    ReportState(StreamState),
}

/// A new frame marks the texture; a state change is reported to the UI.
pub fn handle_event(event: InputEvent) -> (r: EventAction)
    ensures
        match event {
            InputEvent::FrameAvailable => r is MarkFrameAvailable,
            InputEvent::State(s) => r matches EventAction::ReportState(t) && t == s,
        },
{
    match event {
        InputEvent::FrameAvailable => EventAction::MarkFrameAvailable,
        InputEvent::State(s) => EventAction::ReportState(s),
    }
}

/// Which channels of the output loop are closed.
#[derive(Debug, Clone, Copy, PartialEq, Eq, Structural)]
pub struct OutputLoopState {
    pub commands_closed: bool,
    pub events_closed: bool,
}

/// What the loop waits for next.
#[derive(Debug, Clone, Copy, PartialEq, Eq, Structural)]
pub enum OutputWait {
    /// Both channels closed: release the texture and stop.
    Finish,
    /// Only events are still open.
    EventsOnly,
    /// Only commands are still open.
    CommandsOnly,
    /// Whichever of the two delivers first.
    Either,
}

/// The wait for a loop state: the open channels, or finishing when none is.
pub open spec fn wait_for(state: OutputLoopState) -> OutputWait {
    if state.commands_closed && state.events_closed {
        OutputWait::Finish
    } else if state.commands_closed {
        OutputWait::EventsOnly
    } else if state.events_closed {
        OutputWait::CommandsOnly
    } else {
        OutputWait::Either
    }
}

/// The state once the command channel (`commands`) or the event channel was
/// found closed.
pub open spec fn after_close(state: OutputLoopState, commands: bool) -> OutputLoopState {
    if commands {
        OutputLoopState { commands_closed: true, ..state }
    } else {
        OutputLoopState { events_closed: true, ..state }
    }
}

/// Waits on the channels that are still open; stops when none is.
pub fn next_wait(state: OutputLoopState) -> (r: OutputWait)
    ensures
        r == wait_for(state),
{
    if state.commands_closed && state.events_closed {
        OutputWait::Finish
    } else if state.commands_closed {
        OutputWait::EventsOnly
    } else if state.events_closed {
        OutputWait::CommandsOnly
    } else {
        OutputWait::Either
    }
}

/// The state after a channel is found closed.
pub fn on_channel_closed(state: OutputLoopState, commands: bool) -> (r: OutputLoopState)
    ensures
        r == after_close(state, commands),
{
    if commands {
        OutputLoopState { commands_closed: true, events_closed: state.events_closed }
    } else {
        OutputLoopState { commands_closed: state.commands_closed, events_closed: true }
    }
}

/// The loop finishes exactly when both channels are closed: it never
/// finishes while either is open, closing one channel of a loop with both
/// open does not finish it, and once both have been found closed, in either
/// order, it finishes.
pub proof fn lemma_output_loop_finishes_exactly_when_closed(state: OutputLoopState, first_commands: bool)
    ensures
        (wait_for(state) == OutputWait::Finish) <==> (state.commands_closed && state.events_closed),
        !state.commands_closed && !state.events_closed
            ==> wait_for(after_close(state, first_commands)) != OutputWait::Finish,
        wait_for(after_close(after_close(state, first_commands), !first_commands)) == OutputWait::Finish,
{
}

/// Attempts made to wait for the texture to be released before dropping it.
pub const FINALIZE_MAX_RETRIES: usize = 50;

/// Milliseconds between two such attempts.
pub const FINALIZE_RETRY_DELAY_MS: u64 = 500;

/// While waiting to release the texture: drop it once this loop holds the
/// only reference or the attempts are used up, else wait and try again.
pub fn finalize_should_wait(retry_count: usize, strong_count: usize) -> (wait: bool)
    ensures
        wait == (retry_count < FINALIZE_MAX_RETRIES && strong_count != 1),
{
    retry_count < FINALIZE_MAX_RETRIES && strong_count != 1
}

} // verus!
