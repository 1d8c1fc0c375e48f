//! The routing and arbitration core of a gateway between a topic-addressed
//! cache and IoT relays and beacons: the connection index from device topics
//! to the logical topics they feed, the per-class transform of device
//! telemetry into logical topic fields, the valve command arbiter that picks
//! relays by signal strength and retries, and the decisions of the event loop.

use vstd::prelude::*;

pub mod beacon;
pub mod codec;
pub mod command;
pub mod fields;
pub mod gateway;
pub mod mac;
pub mod manager;
pub mod routing;
pub mod transform;
pub mod valve;

verus! {

} // verus!
