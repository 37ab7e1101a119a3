use vstd::prelude::*;
use crate::schemas::{JumpGate, Market, Shipyard, System, Waypoint};

verus! {

/// The reply to listing systems.
pub type ListSystems = Vec<System>;

/// The reply to asking for one system.
pub type GetSystem = System;

/// The reply to listing the waypoints of a system.
pub type ListWaypoints = Vec<Waypoint>;

/// The reply to asking for one waypoint.
pub type GetWaypoint = Waypoint;

/// The reply to asking for a market.
pub type GetMarket = Market;

/// The reply to asking for a shipyard.
pub type GetShipyard = Shipyard;

/// The reply to asking for a jump gate.
pub type GetJumpGate = JumpGate;

} // verus!
