//! Write commands and their builder wrapper.
use vstd::prelude::*;

verus! {

/// Write commands.
#[allow(inconsistent_fields)]
#[derive(PartialEq, Eq, Structural, Debug, Copy, Clone)]
pub enum Writes {
    /// BWR.
    Bwr {
        /// Autoincremented by each SubDevice visited.
        address: u16,
        /// Memory location to write to.
        register: u16,
    },
    /// APWR.
    Apwr {
        /// Auto increment counter.
        address: u16,
        /// Memory location to write to.
        register: u16,
    },
    /// FPWR.
    Fpwr {
        /// Configured station address.
        address: u16,
        /// Memory location to write to.
        register: u16,
    },
    /// LWR.
    Lwr {
        /// Logical address.
        address: u32,
    },
    /// LRW.
    Lrw {
        /// Logical address.
        address: u32,
    },
}

impl Writes {
    /// Wrap this command to make it sendable over the wire, expecting a working counter of 1.
    pub fn wrap(self) -> (r: WrappedWrite)
        ensures
            r.command == self,
            r.wkc == Some(1u16),
            r.len_override.is_none(),
    {
        WrappedWrite::new(self)
    }
}

/// A wrapped version of a [`Writes`] exposing a builder API used to send/receive data over the
/// wire.
#[derive(Debug, Copy, Clone)]
pub struct WrappedWrite {
    /// EtherCAT command.
    pub command: Writes,
    /// Expected working counter.
    pub wkc: Option<u16>,
    /// Explicit PDU length, if set.
    pub len_override: Option<u16>,
}

impl WrappedWrite {
    /// Wrap a command with the default expected working counter of `1` and no length override.
    pub fn new(command: Writes) -> (r: Self)
        ensures
            r.command == command,
            r.wkc == Some(1u16),
            r.len_override.is_none(),
    {
        Self { command, wkc: Some(1), len_override: None }
    }

    /// Set an explicit length for the PDU instead of taking it from the sent data.
    ///
    /// The length will be the _maximum_ of the value set here and the data sent.
    pub fn with_len(self, new_len: u16) -> (r: Self)
        ensures
            r.command == self.command,
            r.wkc == self.wkc,
            r.len_override == Some(new_len),
    {
        Self { len_override: Some(new_len), ..self }
    }

    /// Do not return an error if the working counter is different from the expected value.
    pub fn ignore_wkc(self) -> (r: Self)
        ensures
            r.command == self.command,
            r.wkc.is_none(),
            r.len_override == self.len_override,
    {
        Self { wkc: None, ..self }
    }

    /// Change the expected working counter from its default of `1`.
    pub fn with_wkc(self, wkc: u16) -> (r: Self)
        ensures
            r.command == self.command,
            r.wkc == Some(wkc),
            r.len_override == self.len_override,
    {
        Self { wkc: Some(wkc), ..self }
    }
}

} // verus!
