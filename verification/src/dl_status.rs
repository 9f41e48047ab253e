//! ESC DL status register.
use vstd::prelude::*;
use crate::wire::{bit_set, lemma_pack_flags, pack_flags, pack_flags_exec, WireError};

verus! {

/// The DL status register, two bytes.
///
/// The first byte holds, from bit 0, PDI operational, watchdog OK and extended link detection, a
/// reserved bit, and the link state of ports 0 to 3. The second byte holds the loop and signal
/// state of ports 0 to 3, alternating, from bit 0.
#[derive(Debug, Default, Copy, Clone, PartialEq, Eq, Structural)]
pub struct DlStatus {
    /// PDI operational.
    pub pdi_operational: bool,
    /// Watchdog OK.
    pub watchdog_ok: bool,
    /// Extended link detection.
    pub extended_link_detection: bool,
    /// Link on port 0.
    pub link_port0: bool,
    /// Link on port 1.
    pub link_port1: bool,
    /// Link on port 2.
    pub link_port2: bool,
    /// Link on port 3.
    pub link_port3: bool,
    /// Port 0 loop closed.
    pub loopback_port0: bool,
    /// Signal on port 0.
    pub signal_port0: bool,
    /// Port 1 loop closed.
    pub loopback_port1: bool,
    /// Signal on port 1.
    pub signal_port1: bool,
    /// Port 2 loop closed.
    pub loopback_port2: bool,
    /// Signal on port 2.
    pub signal_port2: bool,
    /// Port 3 loop closed.
    pub loopback_port3: bool,
    /// Signal on port 3.
    pub signal_port3: bool,
}

/// The DL status the first two bytes of `s` hold.
pub open spec fn spec_dl_status_unpack(s: Seq<u8>) -> Result<DlStatus, WireError> {
    if s.len() < DlStatus::PACKED_LEN {
        Err(WireError::ReadBufferTooShort)
    } else {
        Ok(
            DlStatus {
                pdi_operational: bit_set(s[0], 1),
                watchdog_ok: bit_set(s[0], 2),
                extended_link_detection: bit_set(s[0], 4),
                link_port0: bit_set(s[0], 16),
                link_port1: bit_set(s[0], 32),
                link_port2: bit_set(s[0], 64),
                link_port3: bit_set(s[0], 128),
                loopback_port0: bit_set(s[1], 1),
                signal_port0: bit_set(s[1], 2),
                loopback_port1: bit_set(s[1], 4),
                signal_port1: bit_set(s[1], 8),
                loopback_port2: bit_set(s[1], 16),
                signal_port2: bit_set(s[1], 32),
                loopback_port3: bit_set(s[1], 64),
                signal_port3: bit_set(s[1], 128),
            },
        )
    }
}

impl DlStatus {
    /// Packed length in bytes.
    pub const PACKED_LEN: usize = 2;

    /// The two bytes this register packs into.
    pub open spec fn spec_pack(self) -> Seq<u8> {
        seq![
            pack_flags(
                self.pdi_operational,
                self.watchdog_ok,
                self.extended_link_detection,
                false,
                self.link_port0,
                self.link_port1,
                self.link_port2,
                self.link_port3,
            ),
            pack_flags(
                self.loopback_port0,
                self.signal_port0,
                self.loopback_port1,
                self.signal_port1,
                self.loopback_port2,
                self.signal_port2,
                self.loopback_port3,
                self.signal_port3,
            ),
        ]
    }

    /// Pack into two bytes.
    pub fn pack(&self) -> (r: [u8; 2])
        ensures
            r@ == self.spec_pack(),
    {
        let r = [
            pack_flags_exec(
                self.pdi_operational,
                self.watchdog_ok,
                self.extended_link_detection,
                false,
                self.link_port0,
                self.link_port1,
                self.link_port2,
                self.link_port3,
            ),
            pack_flags_exec(
                self.loopback_port0,
                self.signal_port0,
                self.loopback_port1,
                self.signal_port1,
                self.loopback_port2,
                self.signal_port2,
                self.loopback_port3,
                self.signal_port3,
            ),
        ];
        assert(r@ =~= self.spec_pack());
        r
    }

    /// Unpack from the first two bytes of `buf`.
    pub fn unpack_from_slice(buf: &[u8]) -> (r: Result<Self, WireError>)
        ensures
            r == spec_dl_status_unpack(buf@),
    {
        if buf.len() < Self::PACKED_LEN {
            return Err(WireError::ReadBufferTooShort);
        }
        let a = buf[0];
        let b = buf[1];
        Ok(
            DlStatus {
                pdi_operational: (a / 1) % 2 == 1,
                watchdog_ok: (a / 2) % 2 == 1,
                extended_link_detection: (a / 4) % 2 == 1,
                link_port0: (a / 16) % 2 == 1,
                link_port1: (a / 32) % 2 == 1,
                link_port2: (a / 64) % 2 == 1,
                link_port3: (a / 128) % 2 == 1,
                loopback_port0: (b / 1) % 2 == 1,
                signal_port0: (b / 2) % 2 == 1,
                loopback_port1: (b / 4) % 2 == 1,
                signal_port1: (b / 8) % 2 == 1,
                loopback_port2: (b / 16) % 2 == 1,
                signal_port2: (b / 32) % 2 == 1,
                loopback_port3: (b / 64) % 2 == 1,
                signal_port3: (b / 128) % 2 == 1,
            },
        )
    }
}

/// Unpacking a packed DL status gives it back.
pub proof fn lemma_dl_status_roundtrip(d: DlStatus, rest: Seq<u8>)
    ensures
        spec_dl_status_unpack(d.spec_pack() + rest) == Ok::<DlStatus, WireError>(d),
{
    let s = d.spec_pack() + rest;
    assert(s[0] == d.spec_pack()[0] && s[1] == d.spec_pack()[1]);
    lemma_pack_flags(
        d.pdi_operational,
        d.watchdog_ok,
        d.extended_link_detection,
        false,
        d.link_port0,
        d.link_port1,
        d.link_port2,
        d.link_port3,
    );
    lemma_pack_flags(
        d.loopback_port0,
        d.signal_port0,
        d.loopback_port1,
        d.signal_port1,
        d.loopback_port2,
        d.signal_port2,
        d.loopback_port3,
        d.signal_port3,
    );
}

} // verus!
