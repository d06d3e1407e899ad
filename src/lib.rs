//! Data plane of an Enhanced ShockBurst style link layer.
//!
//! - [`header`]: the four-byte packet header and its codec.
//! - [`channel`]: a fixed-capacity framed channel with a grant/commit
//!   protocol; at most one write grant is outstanding at a time, frames become
//!   visible only once committed, and they are read in commit order.
//! - [`payload`]: write and read grants that understand the header in front
//!   of each frame body.
//! - [`app`]: the application-side handles and the address configuration.
//! - [`buffer`]: the duplex buffer that owns one channel per direction and is
//!   split into its application-side and interrupt-side handles once.
//!
//! The handles carry the configuration of their side; each operation takes
//! the channel it produces on or consumes from.
use vstd::prelude::*;

pub mod app;
pub mod buffer;
pub mod channel;
pub mod error;
pub mod header;
pub mod payload;

verus! {

} // verus!
