//! Why an operation of the system failed, as far as the library tells failures apart.

use vstd::prelude::*;

verus! {

/// The numbers that the host's C library has for the failures below.
#[derive(Clone, Copy, Debug, PartialEq, Eq, Structural)]
pub struct ErrnoCodes {
    pub eintr: i32,
    pub eagain: i32,
}

/// Why an operation on an open file failed.
#[derive(Clone, Copy, Debug, PartialEq, Eq, Structural)]
pub enum IoFailure {
    /// A signal came in between.
    Interrupted,
    /// There is nothing to be had, or no room, at the moment.
    WouldBlock,
    Other,
}

/// What an error number means.
pub open spec fn failure_of(errno: Option<i32>, codes: ErrnoCodes) -> IoFailure {
    if errno == Some(codes.eintr) {
        IoFailure::Interrupted
    } else if errno == Some(codes.eagain) {
        IoFailure::WouldBlock
    } else {
        IoFailure::Other
    }
}

/// Tells what an error number means.
pub fn classify(errno: Option<i32>, codes: &ErrnoCodes) -> (failure: IoFailure)
    ensures
        failure == failure_of(errno, *codes),
{
    match errno {
        Some(number) => {
            if number == codes.eintr {
                IoFailure::Interrupted
            } else if number == codes.eagain {
                IoFailure::WouldBlock
            } else {
                IoFailure::Other
            }
        },
        None => IoFailure::Other,
    }
}

/// A failure is told by its number alone: a signal by the host's number for it,
/// nothing to be had by the host's other number, and every other number, or none,
/// is neither.
pub proof fn law_failures_are_told_by_their_numbers(errno: Option<i32>, codes: ErrnoCodes)
    requires
        codes.eintr != codes.eagain,
    ensures
        failure_of(errno, codes) is Interrupted <==> errno is Some && errno->0 == codes.eintr,
        failure_of(errno, codes) is WouldBlock <==> errno is Some && errno->0 == codes.eagain,
        failure_of(errno, codes) is Other <==> errno is None || (errno->0 != codes.eintr && errno->0
            != codes.eagain),
{
}

} // verus!
