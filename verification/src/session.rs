//! The session that applications and streams belong to.

use vstd::prelude::*;

verus! {

/// Why a session ends.
#[derive(Clone, Copy, Debug, PartialEq, Eq, Structural)]
pub enum SessionShutdownReason {
    ApplicationStopped,
    PulseServerStopped,
}

} // verus!
