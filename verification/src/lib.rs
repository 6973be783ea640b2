//! Chain-fork scenarios of a CKB network: the scripts that drive the nodes, the checks on
//! what they answer, and the blocks and transactions the scenarios tamper with.
use vstd::prelude::*;

pub mod block;
pub mod capacity;
pub mod failure;
pub mod fork;
pub mod scenario_laws;
pub mod scenarios;
pub mod script;
pub mod status;

verus! {
} // verus!
