//! SubDevice application layer state.
use vstd::prelude::*;

verus! {

/// AL (application layer) device state, as held in the low four bits of the AL control and status
/// registers.
///
/// Defined in ETG1000.6 6.4.1.
#[derive(PartialEq, Eq, Structural, Debug, Copy, Clone)]
pub enum SubDeviceState {
    /// No state recorded/read/known.
    NotSet,
    /// EtherCAT `INIT` state.
    Init,
    /// EtherCAT `PRE-OP` state.
    PreOp,
    /// EtherCAT `BOOT` state.
    Bootstrap,
    /// EtherCAT `SAFE-OP` state.
    SafeOp,
    /// EtherCAT `OP` state.
    Op,
    /// Any other four bit state value.
    Unknown(u8),
}

impl Default for SubDeviceState {
    fn default() -> (r: Self)
        ensures
            r == SubDeviceState::NotSet,
    {
        SubDeviceState::NotSet
    }
}

/// The state named by a four bit value.
pub open spec fn state_from_nibble(n: u8) -> SubDeviceState {
    if n == 0 {
        SubDeviceState::NotSet
    } else if n == 1 {
        SubDeviceState::Init
    } else if n == 2 {
        SubDeviceState::PreOp
    } else if n == 3 {
        SubDeviceState::Bootstrap
    } else if n == 4 {
        SubDeviceState::SafeOp
    } else if n == 8 {
        SubDeviceState::Op
    } else {
        SubDeviceState::Unknown(n)
    }
}

/// The four bit value of a state.
pub open spec fn state_to_nibble(s: SubDeviceState) -> u8 {
    match s {
        SubDeviceState::NotSet => 0,
        SubDeviceState::Init => 1,
        SubDeviceState::PreOp => 2,
        SubDeviceState::Bootstrap => 3,
        SubDeviceState::SafeOp => 4,
        SubDeviceState::Op => 8,
        SubDeviceState::Unknown(n) => n,
    }
}

impl SubDeviceState {
    /// A state can be represented in four bits: an unknown state holds a four bit value that names
    /// no known state.
    pub open spec fn wf(self) -> bool {
        match self {
            SubDeviceState::Unknown(n) => n < 16 && n != 0 && n != 1 && n != 2 && n != 3 && n != 4
                && n != 8,
            _ => true,
        }
    }

    /// Decode the state from a four bit value.
    pub fn from_nibble(n: u8) -> (r: Self)
        requires
            n < 16,
        ensures
            r == state_from_nibble(n),
            r.wf(),
            state_to_nibble(r) == n,
    {
        if n == 0 {
            SubDeviceState::NotSet
        } else if n == 1 {
            SubDeviceState::Init
        } else if n == 2 {
            SubDeviceState::PreOp
        } else if n == 3 {
            SubDeviceState::Bootstrap
        } else if n == 4 {
            SubDeviceState::SafeOp
        } else if n == 8 {
            SubDeviceState::Op
        } else {
            SubDeviceState::Unknown(n)
        }
    }

    /// The four bit value of this state.
    pub fn to_nibble(&self) -> (r: u8)
        ensures
            r == state_to_nibble(*self),
            self.wf() ==> r < 16,
            self.wf() ==> state_from_nibble(r) == *self,
    {
        match self {
            SubDeviceState::NotSet => 0,
            SubDeviceState::Init => 1,
            SubDeviceState::PreOp => 2,
            SubDeviceState::Bootstrap => 3,
            SubDeviceState::SafeOp => 4,
            SubDeviceState::Op => 8,
            SubDeviceState::Unknown(n) => *n,
        }
    }
}

} // verus!
