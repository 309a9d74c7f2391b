//! Model of the terminal-mode bracket around a session: entering switches the
//! terminal into raw input and the alternate screen; teardown reverses both,
//! each step independently best-effort, so that one failure never suppresses
//! the other attempt, and so that the crash path may race the normal exit
//! path without harm.

use vstd::prelude::*;

verus! {

/// The two terminal-mode flags the driver mutates.
#[derive(Clone, Copy, Debug, PartialEq, Eq, Structural)]
pub struct TerminalMode {
    pub alternate_screen: bool,
    pub raw_input: bool,
}

/// The mode a session runs in after a successful entry.
pub open spec fn entered_mode() -> TerminalMode {
    TerminalMode { alternate_screen: true, raw_input: true }
}

/// The sane mode the terminal must be left in on every exit path.
pub open spec fn restored_mode() -> TerminalMode {
    TerminalMode { alternate_screen: false, raw_input: false }
}

/// The effect of one teardown: the screen step and the raw-mode step are
/// each attempted; a step that succeeds clears its flag, a step that fails
/// (it is only logged) leaves its flag as it was.
pub open spec fn teardown_spec(
    m: TerminalMode,
    leave_screen_ok: bool,
    leave_raw_ok: bool,
) -> TerminalMode {
    TerminalMode {
        alternate_screen: if leave_screen_ok {
            false
        } else {
            m.alternate_screen
        },
        raw_input: if leave_raw_ok {
            false
        } else {
            m.raw_input
        },
    }
}

/// Applies one teardown to the tracked terminal mode, given which of the two
/// restoration attempts succeeded.
pub fn apply_teardown(m: TerminalMode, leave_screen_ok: bool, leave_raw_ok: bool) -> (r:
    TerminalMode)
    ensures
        r == teardown_spec(m, leave_screen_ok, leave_raw_ok),
{
    TerminalMode {
        alternate_screen: if leave_screen_ok {
            false
        } else {
            m.alternate_screen
        },
        raw_input: if leave_raw_ok {
            false
        } else {
            m.raw_input
        },
    }
}

/// Law: teardown is symmetric best-effort: each restoration step's effect
/// depends only on its own outcome, so a failure of the screen step never
/// prevents raw mode from being restored, and the other way round; when both
/// steps succeed the terminal is fully restored.
pub proof fn lemma_teardown_symmetric(m: TerminalMode, screen_ok: bool, raw_ok: bool)
    ensures
        raw_ok ==> !teardown_spec(m, screen_ok, raw_ok).raw_input,
        screen_ok ==> !teardown_spec(m, screen_ok, raw_ok).alternate_screen,
        teardown_spec(m, true, true) == restored_mode(),
        teardown_spec(entered_mode(), true, true) == restored_mode(),
{
}

/// Law: teardown is idempotent: once the terminal is restored, a second
/// teardown — the crash path racing the normal exit path — leaves it
/// restored whatever the second attempts' outcomes.
pub proof fn lemma_teardown_idempotent(screen_ok: bool, raw_ok: bool)
    ensures
        teardown_spec(restored_mode(), screen_ok, raw_ok) == restored_mode(),
{
}

} // verus!
