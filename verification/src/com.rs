//! The per-thread COM initialization discipline.
//!
//! COM must be initialized once in every thread that creates the wallpaper
//! interface, and stay initialized while that thread uses it. The decision —
//! whether a thread still has to make the native initialization call — is
//! taken here over a plain per-thread state; the caller performs the action
//! it is told and keeps the state with the thread.

use vstd::prelude::*;

verus! {

/// What a thread knows of its own COM initialization.
#[derive(Clone, Copy, Debug, PartialEq, Eq, Structural)]
pub struct ComThreadState {
    /// Whether this thread has already initialized COM.
    pub initialized: bool,
}

impl Default for ComThreadState {
    /// A fresh thread has not initialized COM.
    fn default() -> (d: ComThreadState)
        ensures
            !d.initialized,
    {
        ComThreadState { initialized: false }
    }
}

/// The action a thread must perform to uphold the initialization discipline.
#[derive(Clone, Copy, Debug, PartialEq, Eq, Structural)]
pub enum ComAction {
    /// Make the native per-thread initialization call.
    Initialize,
    /// COM is already initialized in this thread; do nothing.
    Nothing,
}

/// Ensures that COM is initialized in this thread: tells a thread that has
/// not initialized COM to do so now, and a thread that has to do nothing.
/// Either way the thread's state records the initialization afterwards.
pub fn ensure_com_initialized(state: &mut ComThreadState) -> (action: ComAction)
    ensures
        final(state).initialized,
        (action is Initialize <==> !old(state).initialized),
{
    if state.initialized {
        ComAction::Nothing
    } else {
        state.initialized = true;
        ComAction::Initialize
    }
}

} // verus!
