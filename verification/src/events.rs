//! The event vocabulary of the runtime loop: one tagged value per multiplexer
//! wait, plus the notification enums delivered by the background workers.

use vstd::prelude::*;

verus! {

/// Progress of a background syntax-highlighting job.
#[derive(Clone, Copy, Debug, PartialEq, Eq, Structural)]
pub enum SyntaxHighlightProgress {
    Progress,
    Done,
}

/// Completion notice from the application-tier background workers.
#[derive(Clone, Copy, Debug, PartialEq, Eq, Structural)]
pub enum AsyncAppNotification {
    SyntaxHighlighting(SyntaxHighlightProgress),
}

/// Completion notice from the git-tier background workers. The runtime loop
/// never looks inside these beyond telling the "finished without a material
/// change" marker apart from the rest.
#[derive(Clone, Copy, Debug, PartialEq, Eq, Structural)]
pub enum AsyncGitNotification {
    Status,
    Log,
    Diff,
    Push,
    Fetch,
    FinishUnchanged,
}

/// A completion notice from either tier of background work.
#[derive(Clone, Copy, Debug, PartialEq, Eq, Structural)]
pub enum AsyncNotification {
    App(AsyncAppNotification),
    Git(AsyncGitNotification),
}

/// Whether the input reader currently polls the terminal itself or has paused
/// while an external interactive tool owns the terminal.
#[derive(Clone, Copy, Debug, PartialEq, Eq, Structural)]
pub enum InputState {
    Paused,
    Polling,
}

/// The raw terminal input payload is carried through the loop untouched; the
/// loop itself only reads the reader-state observations.
#[verifier::external_type_specification]
#[verifier::external_body]
pub struct ExEvent(crossterm::event::Event);

/// One value from the input reader: either a raw terminal event or a change
/// of the reader's own state.
pub enum InputEvent {
    Input(crossterm::event::Event),
    State(InputState),
}

/// Exactly one of these is produced per multiplexer wait; the tag identifies
/// the channel the value originated from.
pub enum QueueEvent {
    Tick,
    Notify,
    SpinnerUpdate,
    AsyncEvent(AsyncNotification),
    InputEvent(InputEvent),
}

} // verus!
