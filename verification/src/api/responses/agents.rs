use vstd::prelude::*;
use crate::schemas::Agent;

verus! {

/// The reply to asking for the agent's own details.
pub type MyAgentDetails = Agent;

} // verus!
