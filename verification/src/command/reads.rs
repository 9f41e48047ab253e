//! Read commands and their builder wrapper.
use vstd::prelude::*;

verus! {

/// Read commands that send no data.
#[allow(inconsistent_fields)]
#[derive(PartialEq, Eq, Structural, Debug, Copy, Clone)]
pub enum Reads {
    /// APRD.
    Aprd {
        /// Auto increment counter.
        address: u16,
        /// Memory location to read from.
        register: u16,
    },
    /// FPRD.
    Fprd {
        /// Configured station address.
        address: u16,
        /// Memory location to read from.
        register: u16,
    },
    /// Broadcast Read (BRD).
    Brd {
        /// Autoincremented by each SubDevice visited.
        address: u16,
        /// Memory location to read from.
        register: u16,
    },
    /// LRD.
    Lrd {
        /// Logical address.
        address: u32,
    },
    /// FRMW.
    Frmw {
        /// Configured station address.
        address: u16,
        /// Memory location to read from.
        register: u16,
    },
}

impl Reads {
    /// Wrap this command to make it sendable over the wire, expecting a working counter of 1.
    pub fn wrap(self) -> (r: WrappedRead)
        ensures
            r.command == self,
            r.wkc == Some(1u16),
    {
        WrappedRead::new(self)
    }
}

/// A wrapped version of a [`Reads`] exposing a builder API used to send/receive data over the wire.
#[derive(Debug, Copy, Clone)]
pub struct WrappedRead {
    /// EtherCAT command.
    pub command: Reads,
    /// Expected working counter.
    pub wkc: Option<u16>,
}

impl WrappedRead {
    /// Wrap a command with the default expected working counter of `1`.
    pub fn new(command: Reads) -> (r: Self)
        ensures
            r.command == command,
            r.wkc == Some(1u16),
    {
        Self { command, wkc: Some(1) }
    }

    /// Do not return an error if the working counter is different from the expected value.
    pub fn ignore_wkc(self) -> (r: Self)
        ensures
            r.command == self.command,
            r.wkc.is_none(),
    {
        Self { wkc: None, ..self }
    }

    /// Change the expected working counter from its default of `1`.
    pub fn with_wkc(self, wkc: u16) -> (r: Self)
        ensures
            r.command == self.command,
            r.wkc == Some(wkc),
    {
        Self { wkc: Some(wkc), ..self }
    }
}

} // verus!
