//! A point-to-point chat protocol: wire framing codec and the per-connection
//! session engine that turns keyboard input, inbound frames, and lifecycle
//! signals into outbound frames and a terminal outcome.

pub mod codec;
pub mod common;
pub mod control;

use vstd::prelude::*;

verus! {

} // verus!
