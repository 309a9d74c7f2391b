//! The "work in progress" animation overlay: a phase that advances on every
//! animation-clock event and an active flag recomputed after every dispatch
//! from whether background work is still pending.

use vstd::prelude::*;

verus! {

/// Number of animation frames the phase cycles through.
pub const SPINNER_FRAME_COUNT: u64 = 4;

/// The animation overlay's state.
pub struct Spinner {
    frame: u64,
    pending: bool,
}

/// The glyph drawn for each animation phase.
pub open spec fn frame_glyph(frame: u64) -> u8 {
    if frame == 0 {
        124u8  /* '|' */
    } else if frame == 1 {
        47u8  /* '/' */
    } else if frame == 2 {
        45u8  /* '-' */
    } else {
        92u8  /* backslash */
    }
}

impl Spinner {
    /// The current animation phase.
    pub closed spec fn frame_index(&self) -> u64 {
        self.frame
    }

    /// Whether background work is pending, so the overlay is drawn.
    pub closed spec fn is_pending(&self) -> bool {
        self.pending
    }

    /// The phase stays within the frame cycle.
    pub closed spec fn wf(&self) -> bool {
        self.frame < SPINNER_FRAME_COUNT
    }

    /// Advances the animation phase by one frame, wrapping around the cycle.
    pub fn update(&mut self)
        requires
            old(self).wf(),
        ensures
            final(self).wf(),
            final(self).frame_index() == (old(self).frame_index() + 1) % (
            SPINNER_FRAME_COUNT as int),
            final(self).is_pending() == old(self).is_pending(),
    {
        self.frame = if self.frame + 1 == SPINNER_FRAME_COUNT {
            0
        } else {
            self.frame + 1
        };
    }

    /// Records whether the application reports pending background work.
    pub fn set_state(&mut self, pending: bool)
        requires
            old(self).wf(),
        ensures
            final(self).wf(),
            final(self).is_pending() == pending,
            final(self).frame_index() == old(self).frame_index(),
    {
        self.pending = pending;
    }

    /// The glyph for the current phase, drawn only while work is pending.
    pub fn glyph(&self) -> (r: u8)
        ensures
            r == frame_glyph(self.frame_index()),
    {
        if self.frame == 0 {
            124u8  /* '|' */
        } else if self.frame == 1 {
            47u8  /* '/' */
        } else if self.frame == 2 {
            45u8  /* '-' */
        } else {
            92u8  /* backslash */
        }
    }
}

impl Default for Spinner {
    /// A fresh overlay: first frame, no pending work.
    fn default() -> (r: Spinner)
        ensures
            r.wf(),
            r.frame_index() == 0,
            !r.is_pending(),
    {
        Spinner { frame: 0, pending: false }
    }
}

} // verus!
