//! Per-event dispatch policy of the runtime loop: which application entry
//! point an event is forwarded to, when the cursor must be re-hidden, and
//! when the post-dispatch redraw pass runs.

use vstd::prelude::*;

use crate::events::{
    AsyncGitNotification, AsyncNotification, InputEvent, InputState, QueueEvent,
};

verus! {

/// The application entry point one dispatched event is forwarded to.
pub enum AppCall {
    ForwardInput(InputEvent),
    FullUpdate,
    AsyncUpdate(AsyncNotification),
}

/// Everything one loop iteration does with a dispatched event, in order:
/// advance the animation phase, correct the cursor, invoke the application,
/// run the post-dispatch redraw pass.
pub struct DispatchStep {
    /// Advance the animation phase and redraw only the animation overlay.
    pub advance_spinner: bool,
    /// Force the cursor back into the hidden state before forwarding, because
    /// a temporarily-suspended external interactive mode has just ended.
    pub hide_cursor: bool,
    /// The application entry point to invoke, if any.
    pub call: Option<AppCall>,
    /// Run the full post-dispatch redraw pass (screen plus animation overlay)
    /// and re-check the application's quit request afterwards.
    pub full_draw_pass: bool,
}

/// A background-work completion is forwarded to the application unless it is
/// the "finished without a material change" marker, which is filtered.
pub open spec fn forwards_async(n: AsyncNotification) -> bool {
    n != AsyncNotification::Git(AsyncGitNotification::FinishUnchanged)
}

/// The dispatch policy, one step per event tag.
pub open spec fn plan_spec(ev: QueueEvent) -> DispatchStep {
    match ev {
        QueueEvent::SpinnerUpdate => DispatchStep {
            advance_spinner: true,
            hide_cursor: false,
            call: None,
            full_draw_pass: false,
        },
        QueueEvent::InputEvent(iev) => DispatchStep {
            advance_spinner: false,
            hide_cursor: iev matches InputEvent::State(InputState::Polling),
            call: Some(AppCall::ForwardInput(iev)),
            full_draw_pass: true,
        },
        QueueEvent::Tick => DispatchStep {
            advance_spinner: false,
            hide_cursor: false,
            call: Some(AppCall::FullUpdate),
            full_draw_pass: true,
        },
        QueueEvent::Notify => DispatchStep {
            advance_spinner: false,
            hide_cursor: false,
            call: Some(AppCall::FullUpdate),
            full_draw_pass: true,
        },
        QueueEvent::AsyncEvent(n) => DispatchStep {
            advance_spinner: false,
            hide_cursor: false,
            call: if forwards_async(n) {
                Some(AppCall::AsyncUpdate(n))
            } else {
                None
            },
            full_draw_pass: true,
        },
    }
}

/// Decides what the current iteration does with the event it obtained.
pub fn plan_dispatch(ev: QueueEvent) -> (r: DispatchStep)
    ensures
        r == plan_spec(ev),
{
    match ev {
        QueueEvent::SpinnerUpdate => DispatchStep {
            advance_spinner: true,
            hide_cursor: false,
            call: None,
            full_draw_pass: false,
        },
        QueueEvent::InputEvent(iev) => {
            let hide = matches!(iev, InputEvent::State(InputState::Polling));
            DispatchStep {
                advance_spinner: false,
                hide_cursor: hide,
                call: Some(AppCall::ForwardInput(iev)),
                full_draw_pass: true,
            }
        },
        QueueEvent::Tick | QueueEvent::Notify => DispatchStep {
            advance_spinner: false,
            hide_cursor: false,
            call: Some(AppCall::FullUpdate),
            full_draw_pass: true,
        },
        QueueEvent::AsyncEvent(n) => {
            let forward = !matches!(
                n,
                AsyncNotification::Git(AsyncGitNotification::FinishUnchanged)
            );
            DispatchStep {
                advance_spinner: false,
                hide_cursor: false,
                call: if forward {
                    Some(AppCall::AsyncUpdate(n))
                } else {
                    None
                },
                full_draw_pass: true,
            }
        },
    }
}

/// What the post-dispatch redraw pass does, from what the application
/// reports: clear the screen first exactly when a layout-invalidating change
/// requires a full redraw, and set the animation overlay active exactly when
/// background work is still pending.
pub struct RedrawPass {
    pub clear_first: bool,
    pub spinner_active: bool,
}

/// The redraw-pass policy.
pub open spec fn redraw_spec(requires_full_redraw: bool, pending_work: bool) -> RedrawPass {
    RedrawPass { clear_first: requires_full_redraw, spinner_active: pending_work }
}

/// Decides the redraw pass that follows every non-spinner dispatch.
pub fn plan_redraw(requires_full_redraw: bool, pending_work: bool) -> (r: RedrawPass)
    ensures
        r == redraw_spec(requires_full_redraw, pending_work),
{
    RedrawPass { clear_first: requires_full_redraw, spinner_active: pending_work }
}

/// Law: an animation-clock event never reaches the application: it invokes
/// neither the full update nor the async handler (nor any other entry
/// point), only the spinner advances, and the full redraw pass is skipped.
pub proof fn lemma_spinner_update_cheap()
    ensures
        plan_spec(QueueEvent::SpinnerUpdate).call is None,
        plan_spec(QueueEvent::SpinnerUpdate).advance_spinner,
        !plan_spec(QueueEvent::SpinnerUpdate).full_draw_pass,
{
}

/// Law: the background-work "no-op/unchanged" marker is filtered before the
/// async handler, yet the post-dispatch redraw pass still runs for that
/// iteration; every other completion is forwarded unchanged.
pub proof fn lemma_noop_notification_filtered()
    ensures
        plan_spec(
            QueueEvent::AsyncEvent(AsyncNotification::Git(AsyncGitNotification::FinishUnchanged)),
        ).call is None,
        plan_spec(
            QueueEvent::AsyncEvent(AsyncNotification::Git(AsyncGitNotification::FinishUnchanged)),
        ).full_draw_pass,
        forall|n: AsyncNotification|
            forwards_async(n) ==> #[trigger] plan_spec(QueueEvent::AsyncEvent(n)).call == Some(
                AppCall::AsyncUpdate(n),
            ),
{
}

/// Law: the synthesized first-iteration event performs a full application
/// update, so the first rendered frame reflects real state.
pub proof fn lemma_forced_first_update()
    ensures
        plan_spec(QueueEvent::Notify).call == Some(AppCall::FullUpdate),
        plan_spec(QueueEvent::Notify).full_draw_pass,
{
}

} // verus!
