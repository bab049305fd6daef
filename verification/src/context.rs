//! An explicit stand-in for the driver's "currently active program" state.
//!
//! The driver keeps the active program as ambient global state.  Holding it
//! in an explicit value lets callers and tests see which program is active
//! without querying driver globals; the runner mirrors every change of this
//! value with the driver's program-activation call.

use vstd::prelude::*;

verus! {

/// The pipeline state a renderer owns: which program, if any, is active
/// for subsequent uniform uploads and draw calls.
pub struct RenderContext {
    /// The handle of the program activated last, if any.
    pub active: Option<u32>,
}

/// What activating the program with handle `handle` does to a context.
pub open spec fn activate(c: RenderContext, handle: u32) -> RenderContext {
    RenderContext { active: Some(handle) }
}

impl RenderContext {
    /// The handle of the active program, if one has been activated.
    pub open spec fn active_program(&self) -> Option<u32> {
        self.active
    }

    /// A fresh context: no program is active yet.
    pub fn new() -> (c: Self)
        ensures
            c.active_program() is None,
    {
        RenderContext { active: None }
    }

    /// Records that the program with handle `handle` is now the active one.
    /// The runner must mirror this with the driver's activation call.
    pub fn set_active(&mut self, handle: u32)
        ensures
            *final(self) == activate(*old(self), handle),
            final(self).active_program() == Some(handle),
    {
        self.active = Some(handle);
    }

    /// The active handle, for runners and tests.
    pub fn active(&self) -> (r: Option<u32>)
        ensures
            r == self.active_program(),
    {
        self.active
    }
}

/// Activating the same program twice in a row leaves the context exactly as
/// activating it once does: activation is idempotent.
pub proof fn lemma_activate_idempotent(c: RenderContext, handle: u32)
    ensures
        activate(activate(c, handle), handle) == activate(c, handle),
{
}

} // verus!
