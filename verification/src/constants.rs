//! Defaults of the configuration.

use vstd::prelude::*;

verus! {

/// The port that the node listens on.
pub const PORT: u16 = 8820;

/// The size of the buffer that a connection reads into, in bytes.
pub const OUTPUT_BUFFER_SIZE: usize = 1024;

/// The time between two rounds of stabilization, in milliseconds.
pub const STABILIZE_FREQUENCY: u64 = 1000;

/// The width of an identifier, in bits.
pub const ID_BITS: u8 = 32;

/// The number of virtual nodes that one process hosts.
pub const VIRTUAL_NODE_NUMBER: u8 = 8;

} // verus!
