//! Configuration passed to the MainDevice.
use vstd::prelude::*;

verus! {

/// Configuration passed to the MainDevice.
#[derive(Debug, Copy, Clone, PartialEq, Eq, Structural)]
pub struct ClientConfig {
    /// The number of `FRMW` packets to send during the static phase of Distributed Clocks (DC)
    /// synchronisation. Defaults to 10000. If this is set to zero, no static sync is performed.
    pub dc_static_sync_iterations: u32,
}

impl Default for ClientConfig {
    fn default() -> (r: Self)
        ensures
            r.dc_static_sync_iterations == 10_000,
    {
        ClientConfig { dc_static_sync_iterations: 10_000 }
    }
}

} // verus!
