//! Fail-stop policy for unrecoverable platform faults. The firmware runs
//! unattended, so a fault no operator can react to is answered by halting;
//! the shell carries the choice out by parking in an idle no-op loop.

use vstd::prelude::*;

verus! {

/// What the firmware does once the platform surfaces an unrecoverable
/// fault.
#[derive(Clone, Copy, Debug, PartialEq, Eq, Structural)]
pub enum FaultResponse {
    /// Park forever in a no-op loop: no restart, no recovery, no further
    /// diagnostics.
    Halt,
    /// Reset and start over. Never chosen: with no operator present a
    /// restart could retrigger the same fault endlessly.
    Restart,
}

/// The policy itself: every unrecoverable fault, whatever its source, is
/// answered by halting in place.
pub fn panic() -> (r: FaultResponse)
    ensures
        r is Halt,
{
    FaultResponse::Halt
}

} // verus!
