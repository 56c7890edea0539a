//! A deterministic replay harness for fuzzing a vsock packet view that lives
//! inside guest memory.
//!
//! One iteration takes a decoded [`ops::VsockInput`] envelope, lays its
//! descriptor entries out as a descriptor table in a fresh [`mem::GuestMem`]
//! region, constructs a [`packet::PacketView`] over the chain by the
//! receive-path or transmit-path strategy, and then replays the envelope's
//! operation list, in order, against the view and the memory.
use vstd::prelude::*;

pub mod chain;
pub mod harness;
pub mod mem;
pub mod ops;
pub mod packet;

verus! {

/// Size in bytes of the packet header region that every construction
/// strategy validates against.
pub const PKT_HEADER_SIZE: usize = 44;

} // verus!
