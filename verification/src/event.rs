//! Connection events. The event channel reports geometric connect actions
//! to the host; it never judges whether a connection makes domain sense.

use vstd::prelude::*;
use crate::plug::PlugType;
use crate::port::PortId;

verus! {

/// A frame-scoped event, keyed in the event channel by the cable it concerns.
#[derive(Debug, Clone, Copy, PartialEq, Eq, Structural)]
pub enum Event {
    /// A drag of the cable's `plug_type` end was released over `port_id`.
    Connected { plug_type: PlugType, port_id: PortId },
}

} // verus!
