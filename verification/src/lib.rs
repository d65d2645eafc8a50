//! A verified model of a single-shot GPU compute round trip: provisioning a
//! device buffer with known input, dispatching a compute grid over it, copying
//! the result into a host-readable staging buffer, synchronizing with the
//! device through an asynchronous mapping request, and decoding the bytes
//! back into integers.

use vstd::prelude::*;

pub mod buffer;
pub mod codec;
pub mod commands;
pub mod dispatch;
pub mod error;
pub mod harness;
pub mod pipeline;
pub mod provision;
pub mod sync;

verus! {

} // verus!
