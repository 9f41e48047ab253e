//! The AL control/status word.
use vstd::prelude::*;
use crate::subdevice_state::{state_from_nibble, state_to_nibble, SubDeviceState};
use crate::wire::WireError;

verus! {

/// Packed length of [`AlControl`] in bytes.
pub const AL_CONTROL_LEN: usize = 2;

/// The AL control/status word for an individual SubDevice.
///
/// Defined in ETG1000.6 Table 9 - AL Control Description. The first byte holds the state in bits
/// 0-3, the error flag in bit 4 and the ID request flag in bit 5; the rest is reserved.
#[derive(PartialEq, Eq, Structural, Debug, Copy, Clone)]
pub struct AlControl {
    /// AL status.
    pub state: SubDeviceState,
    /// Error flag.
    pub error: bool,
    /// ID request flag.
    pub id_request: bool,
}

impl Default for AlControl {
    fn default() -> (r: Self)
        ensures
            r == (AlControl { state: SubDeviceState::NotSet, error: false, id_request: false }),
    {
        AlControl { state: SubDeviceState::NotSet, error: false, id_request: false }
    }
}

/// The AL control word that the two bytes of `s` hold, if `s` is long enough.
pub open spec fn spec_al_control_unpack(s: Seq<u8>) -> Result<AlControl, WireError> {
    if s.len() < AL_CONTROL_LEN {
        Err(WireError::ReadBufferTooShort)
    } else {
        Ok(
            AlControl {
                state: state_from_nibble(s[0] % 16),
                error: (s[0] / 16) % 2 == 1,
                id_request: (s[0] / 32) % 2 == 1,
            },
        )
    }
}

impl AlControl {
    /// Fields can be represented on the wire.
    pub open spec fn wf(self) -> bool {
        self.state.wf()
    }

    /// The two bytes this control word packs into.
    pub open spec fn spec_pack(self) -> Seq<u8> {
        seq![
            (state_to_nibble(self.state) as int + 16 * (if self.error { 1int } else { 0 }) + 32 * (
            if self.id_request { 1int } else { 0 })) as u8,
            0u8,
        ]
    }

    /// Create a control word requesting the given state.
    pub fn new(state: SubDeviceState) -> (r: Self)
        ensures
            r == (AlControl { state, error: false, id_request: false }),
    {
        Self { state, error: false, id_request: false }
    }

    /// Create a control word requesting `INIT` and acknowledging any error.
    pub fn reset() -> (r: Self)
        ensures
            r == (AlControl { state: SubDeviceState::Init, error: true, id_request: false }),
    {
        Self { state: SubDeviceState::Init, error: true, id_request: false }
    }

    /// Pack into the two bytes sent on the wire.
    pub fn pack(&self) -> (r: [u8; 2])
        requires
            self.wf(),
        ensures
            r@ == self.spec_pack(),
    {
        let b = self.state.to_nibble() + if self.error { 16 } else { 0 } + if self.id_request {
            32
        } else {
            0
        };
        let r = [b, 0u8];
        assert(r@ =~= self.spec_pack());
        r
    }

    /// Unpack from the first two bytes of `buf`.
    pub fn unpack_from_slice(buf: &[u8]) -> (r: Result<Self, WireError>)
        ensures
            r == spec_al_control_unpack(buf@),
            r matches Ok(v) ==> v.wf(),
    {
        if buf.len() < AL_CONTROL_LEN {
            return Err(WireError::ReadBufferTooShort);
        }
        let b = buf[0];
        Ok(
            Self {
                state: SubDeviceState::from_nibble(b % 16),
                error: (b / 16) % 2 == 1,
                id_request: (b / 32) % 2 == 1,
            },
        )
    }
}

/// Unpacking a packed control word gives it back.
pub proof fn lemma_al_control_roundtrip(c: AlControl, rest: Seq<u8>)
    requires
        c.wf(),
    ensures
        spec_al_control_unpack(c.spec_pack() + rest) == Ok::<AlControl, WireError>(c),
{
    let b = c.spec_pack()[0];
    assert((c.spec_pack() + rest)[0] == b);
    let n = state_to_nibble(c.state);
    assert(n < 16);
    assert(b % 16 == n);
    assert((b / 16) % 2 == 1 <==> c.error);
    assert((b / 32) % 2 == 1 <==> c.id_request);
}

} // verus!
