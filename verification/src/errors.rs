use vstd::prelude::*;

use crate::timer::DisplayId;

verus! {

/// The ways an operation on a display link can fail. Every failure is
/// recoverable and leaves the link exactly as it was before the call.
#[derive(Clone, Copy, Debug, PartialEq, Eq, Structural)]
pub enum LinkError {
    /// The platform could not create a native timer for this display
    /// (display absent, resource exhaustion, unsupported display type).
    CreationFailed { display_id: DisplayId },
    /// `pause` was called while the link was already paused.
    AlreadyPaused,
    /// `resume` was called while the link was already running.
    AlreadyRunning,
}

} // verus!
