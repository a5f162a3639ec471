//! Protocol parameters: network size, fault bound, and quorum size.

use vstd::prelude::*;

verus! {

/// Total number of processes in the network.  A real deployment needs
/// `NODES >= 3 * F + 1` to tolerate `F` Byzantine faults.
pub const NODES: usize = 5;

/// Maximum number of faulty or unresponsive processes tolerated.
pub const F: usize = 1;

/// Number of matching votes required to certify a value.
pub const QUORUM: usize = 2 * F + 1;

} // verus!
