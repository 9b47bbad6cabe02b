//! The typed outcomes that frame, host, client and encoder operations return.

use vstd::prelude::*;

verus! {

/// Every failure a library call can report.  All of them are returned to the
/// caller as values; none is signalled by panicking.
#[derive(Clone, Copy, Debug, PartialEq, Eq, Structural)]
pub enum VsError {
    /// A format code was not a well-formed 4-byte code.
    InvalidFormat,
    /// Backing memory could not be obtained, or a buffer was already bound.
    AllocationFailed,
    /// An attach was attempted with a bad descriptor, size or offset.
    InvalidDescriptor,
    /// A lock was requested while another owner holds it.
    AlreadyLocked,
    /// An unlock or a writable mapping was requested without holding the lock.
    NotLocked,
    /// A mapping was requested on a frame with no backing store.
    NotLockable,
    /// No notification arrived within the caller's deadline.
    Timeout,
    /// The host refused a new subscription.
    ConnectionFailed,
    /// The host's channel has terminated.
    ConnectionClosed,
    /// A resolved frame's slot was reclaimed before this access.
    StaleReference,
}

} // verus!
