//! What distributed clock configuration knows of a SubDevice.
use vstd::prelude::*;
use crate::ports::{Ports, Topology};

verus! {

/// Features a SubDevice supports.
#[derive(Default, Debug, PartialEq, Eq, Structural, Copy, Clone)]
pub struct SupportFlags {
    /// Distributed clocks.
    pub dc_supported: bool,
}

/// A SubDevice as seen by distributed clock configuration.
#[derive(Default, Debug, PartialEq, Eq, Copy, Clone)]
pub struct SubDevice {
    /// The address given to this SubDevice during initialisation.
    pub configured_address: u16,
    /// Supported features.
    pub flags: SupportFlags,
    /// The four ports, with their link state and latched receive times.
    pub ports: Ports,
    /// The latched DC receive time of the SubDevice.
    pub dc_receive_time: u64,
    /// The position of this SubDevice in the network.
    pub index: u16,
    /// The index of the SubDevice this one is connected downstream of.
    pub parent_index: Option<u16>,
    /// The time a frame takes to reach this SubDevice from the MainDevice, in nanoseconds.
    pub propagation_delay: u32,
}

impl SubDevice {
    /// This SubDevice hangs off an intermediate port of a junction `parent`.
    pub open spec fn spec_is_child_of(self, parent: SubDevice) -> bool {
        let k = parent.ports.assigned_index(self.index);
        let last = parent.ports.last_active_index();
        &&& parent.ports.spec_topology().spec_is_junction()
        &&& k >= 0
        &&& !(last >= 0 && parent.ports.0[last] == parent.ports.0[k])
    }

    /// The address given to this SubDevice during initialisation.
    pub fn configured_address(&self) -> (r: u16)
        ensures
            r == self.configured_address,
    {
        self.configured_address
    }

    /// Whether this SubDevice is a child of the given parent, i.e. it is attached to a port of a
    /// fork or cross that is not the last one.
    pub fn is_child_of(&self, parent: &SubDevice) -> (r: bool)
        requires
            parent.ports.active_count() >= 1,
        ensures
            r == self.spec_is_child_of(*parent),
    {
        let parent_port = parent.ports.port_assigned_to(self.index);
        let child_attached = match parent_port {
            Some(port) => !parent.ports.is_last_port(&port),
            None => false,
        };
        parent.ports.topology().is_junction() && child_attached
    }
}

} // verus!
