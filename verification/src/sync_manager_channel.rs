//! Sync manager channel control byte.
use vstd::prelude::*;
use crate::coe::flag;
use crate::wire::WireError;

verus! {

/// Sync manager operation mode, held in bits 0-1 of the control byte.
#[derive(Default, Debug, Copy, Clone, PartialEq, Eq, Structural)]
pub enum OperationMode {
    /// Buffered (process data).
    #[default]
    Normal,
    /// Mailbox.
    Mailbox,
}

/// Sync manager data direction, held in bits 2-3 of the control byte.
#[derive(Default, Debug, Copy, Clone, PartialEq, Eq, Structural)]
pub enum Direction {
    /// Read by the MainDevice.
    #[default]
    MasterRead,
    /// Written by the MainDevice.
    MasterWrite,
}

/// Sync manager channel control byte.
#[derive(Default, Debug, Copy, Clone, PartialEq, Eq, Structural)]
pub struct Control {
    /// Operation mode.
    pub operation_mode: OperationMode,
    /// Data direction.
    pub direction: Direction,
    /// Interrupt in the EtherCAT event request register.
    pub ecat_event_enable: bool,
    /// Interrupt in the AL event request register.
    pub dls_user_event_enable: bool,
    /// Watchdog enable.
    pub watchdog_enable: bool,
}

/// The control byte `b` decodes to: operation mode `0` or `2`, direction `0` or `1`, the three
/// flags in bits 4-6. Other mode or direction values are invalid.
pub open spec fn spec_control_from_byte(b: u8) -> Result<Control, WireError> {
    let mode = b % 4;
    let dir = (b / 4) % 4;
    if (mode != 0 && mode != 2) || dir > 1 {
        Err(WireError::InvalidValue)
    } else {
        Ok(
            Control {
                operation_mode: if mode == 0 {
                    OperationMode::Normal
                } else {
                    OperationMode::Mailbox
                },
                direction: if dir == 0 {
                    Direction::MasterRead
                } else {
                    Direction::MasterWrite
                },
                ecat_event_enable: (b / 16) % 2 == 1,
                dls_user_event_enable: (b / 32) % 2 == 1,
                watchdog_enable: (b / 64) % 2 == 1,
            },
        )
    }
}

impl Control {
    /// The byte this control packs into.
    pub open spec fn spec_to_byte(self) -> u8 {
        ((if self.operation_mode is Mailbox {
            2int
        } else {
            0
        }) + 4 * (if self.direction is MasterWrite {
            1int
        } else {
            0
        }) + 16 * flag(self.ecat_event_enable) + 32 * flag(self.dls_user_event_enable) + 64 * flag(
            self.watchdog_enable,
        )) as u8
    }

    /// Decode a control byte.
    pub fn from_byte(b: u8) -> (r: Result<Self, WireError>)
        ensures
            r == spec_control_from_byte(b),
    {
        let mode = b % 4;
        let dir = (b / 4) % 4;
        if (mode != 0 && mode != 2) || dir > 1 {
            return Err(WireError::InvalidValue);
        }
        Ok(
            Control {
                operation_mode: if mode == 0 {
                    OperationMode::Normal
                } else {
                    OperationMode::Mailbox
                },
                direction: if dir == 0 {
                    Direction::MasterRead
                } else {
                    Direction::MasterWrite
                },
                ecat_event_enable: (b / 16) % 2 == 1,
                dls_user_event_enable: (b / 32) % 2 == 1,
                watchdog_enable: (b / 64) % 2 == 1,
            },
        )
    }

    /// Encode into a control byte.
    pub fn to_byte(&self) -> (r: u8)
        ensures
            r == self.spec_to_byte(),
    {
        let m: u8 = match self.operation_mode {
            OperationMode::Normal => 0,
            OperationMode::Mailbox => 2,
        };
        let d: u8 = match self.direction {
            Direction::MasterRead => 0,
            Direction::MasterWrite => 4,
        };
        m + d + (if self.ecat_event_enable { 16u8 } else { 0 }) + (if self.dls_user_event_enable {
            32u8
        } else {
            0
        }) + (if self.watchdog_enable { 64u8 } else { 0 })
    }
}

/// Decoding an encoded control byte gives the control back.
pub proof fn lemma_control_roundtrip(c: Control)
    ensures
        spec_control_from_byte(c.spec_to_byte()) == Ok::<Control, WireError>(c),
{
    let b = c.spec_to_byte();
    assert(b % 4 == (if c.operation_mode is Mailbox { 2int } else { 0 }));
    assert((b / 4) % 4 == (if c.direction is MasterWrite { 1int } else { 0 }));
    assert((b / 16) % 2 == 1 <==> c.ecat_event_enable);
    assert((b / 32) % 2 == 1 <==> c.dls_user_event_enable);
    assert((b / 64) % 2 == 1 <==> c.watchdog_enable);
}

} // verus!
