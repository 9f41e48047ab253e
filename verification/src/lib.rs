//! EtherCAT MainDevice protocol logic: wire formats, commands, frames and configuration helpers.
use vstd::prelude::*;

pub mod wire;
pub mod command;
pub mod subdevice_state;
pub mod al_control;
pub mod mailbox;
pub mod coe;
pub mod error;
pub mod ports;
pub mod subdevice;
pub mod dc;
pub mod sync_manager_channel;
pub mod eeprom;
pub mod fmmu;
pub mod dl_status;
pub mod ethernet;
pub mod pdu;
pub mod ds402;
pub mod al_status_code;
pub mod al_status;
pub mod base_data_types;
pub mod client_config;
pub mod client;
pub mod convenience;
pub mod esi;
pub mod generate;
pub mod pdi;
pub mod pdu_data;
pub mod collections;
pub mod text;

verus! {

/// Mask for the 11 bit length field in a PDU header.
pub const LEN_MASK: u16 = 0b0000_0111_1111_1111;

} // verus!
