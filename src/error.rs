use vstd::prelude::*;

verus! {

/// Errors returned to callers of the link layer. All of them are local and
/// recoverable.
#[derive(Clone, Copy, Debug, PartialEq, Eq, Structural)]
pub enum Error {
    /// A packet declared a payload longer than the configured maximum.
    MaximumPacketExceeded,
    /// A write grant is already outstanding on the channel.
    GrantInProgress,
    /// The channel has not enough free space for the reservation.
    InsufficientSpace,
    /// No committed frame is waiting to be read.
    Empty,
    /// The duplex buffer has already been split.
    AlreadySplit,
    /// The address configuration failed validation.
    InvalidParameters,
    /// Any other failure of the underlying channel.
    InternalError,
}

} // verus!
