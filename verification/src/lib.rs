//! A peer node of a Chord-style distributed hash table.
//!
//! The crate holds the logic of a node: the identifier algebra on an `m`-bit
//! ring, the location of a virtual node, its routing state (predecessor,
//! finger table, finger start identifiers), the text protocol that peers
//! speak, and the decisions of the routing and membership protocols. What
//! needs sockets, timers or the command line is left to the program around it,
//! which hands this crate plain values and performs the actions it asks for.

pub mod arithmetic;
pub mod command;
pub mod config;
pub mod constants;
pub mod error;
pub mod hash;
pub mod location;
pub mod membership;
pub mod node;
pub mod number;
pub mod pair;
pub mod process;
pub mod roundtrip;
pub mod text;
