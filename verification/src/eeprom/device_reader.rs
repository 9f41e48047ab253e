//! Decisions of the EEPROM data source that talks to a physical SubDevice.
use vstd::prelude::*;
use crate::eeprom::types::{SiiControl, SiiRequest};
use crate::error::{EepromError, Error};

verus! {

/// The address of the first proper category, after the fixed fields defined in ETG2010 Table 2.
/// The EEPROM is word addressed.
pub const SII_FIRST_CATEGORY_START: u16 = 0x0040;

/// SII control/status register of a SubDevice.
pub const REG_SII_CONTROL: u16 = 0x0502;

/// SII data register of a SubDevice, holding the chunk last read.
pub const REG_SII_DATA: u16 = 0x0508;

/// EEPROM data source that talks to the SubDevice with the given configured address.
#[derive(Debug, Clone, Copy, PartialEq, Eq, Structural)]
pub struct DeviceEeprom {
    /// The SubDevice's configured address.
    pub configured_address: u16,
}

impl DeviceEeprom {
    /// A data source for the SubDevice with the given configured address.
    pub fn new(configured_address: u16) -> (r: Self)
        ensures
            r.configured_address == configured_address,
    {
        DeviceEeprom { configured_address }
    }

    /// The request written to the SII control register to read the chunk at `start_word`.
    pub fn read_request(&self, start_word: u16) -> (r: SiiRequest)
        ensures
            r == (SiiRequest { control: SiiControl::spec_read(), address: start_word }),
    {
        SiiRequest::read(start_word)
    }

    /// Whether the read has finished, given the polled control register.
    pub fn read_done(&self, status: &SiiControl) -> (r: bool)
        ensures
            r == !status.busy,
    {
        !status.busy
    }

    /// How many bytes to read from the SII data register once the read has finished.
    pub fn chunk_len(&self, status: &SiiControl) -> (r: u16)
        ensures
            r == (if status.read_size is Octets4 {
                4u16
            } else {
                8u16
            }),
    {
        status.read_size.chunk_len()
    }

    /// The control word to write back to reset the error flags, if any of them is set.
    pub fn error_reset(&self, status: &SiiControl) -> (r: Option<SiiControl>)
        ensures
            (status.checksum_error || status.device_info_error || status.write_error) ==> r == Some(
                SiiControl {
                    checksum_error: false,
                    device_info_error: false,
                    command_error: false,
                    write_error: false,
                    ..*status
                },
            ),
            !(status.checksum_error || status.device_info_error || status.write_error) ==> r
                is None,
    {
        if status.has_error() {
            Some(status.error_reset())
        } else {
            None
        }
    }

    /// The outcome of clearing errors, given the control register after the reset (or the
    /// register read first, when no reset was needed).
    pub fn clear_errors_result(&self, status: &SiiControl) -> (r: Result<(), Error>)
        ensures
            (status.checksum_error || status.device_info_error || status.write_error) ==> r == Err::<
                (),
                Error,
            >(Error::Eeprom(EepromError::ClearErrors)),
            !(status.checksum_error || status.device_info_error || status.write_error) ==> r == Ok::<
                (),
                Error,
            >(()),
    {
        if status.has_error() {
            Err(Error::Eeprom(EepromError::ClearErrors))
        } else {
            Ok(())
        }
    }
}

} // verus!
