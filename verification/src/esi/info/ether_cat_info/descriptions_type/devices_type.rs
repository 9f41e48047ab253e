//! ESI (EtherCAT Slave Information) XML data model: `ether_cat_info::descriptions_type::devices_type`.
use vstd::prelude::*;
use crate::esi::info::EepromType;
use crate::esi::info::InfoType;
pub mod device_type;

verus! {

#[derive(Default, Clone, PartialEq, Debug)]
pub struct DeviceType {
    pub invisible: Option<bool>,

    pub physics: String,

    pub crc_32: Option<String>,

    // (SCI)
    pub sci: Option<device_type::SciType>,

    pub _type: device_type::TypeType,

    pub hide_type: Vec<device_type::HideTypeType>,

    pub alternative_type: Vec<device_type::AlternativeTypeType>,

    pub sub_device: Vec<device_type::SubDeviceType>,

    pub name: Vec<String>,

    pub comment: Vec<String>,

    pub url: Vec<String>,

    pub info: Option<InfoType>,

    pub group_type: String,

    pub profile: Vec<device_type::ProfileType>,

    pub fmmu: Vec<device_type::FmmuType>,

    pub sm: Vec<device_type::SmType>,

    pub su: Vec<device_type::SuType>,

    pub rx_pdo: Vec<String>,

    pub tx_pdo: Vec<String>,

    pub mailbox: Option<device_type::MailboxType>,

    pub dc: Option<device_type::DcType>,

    pub slots: Option<device_type::SlotsType>,

    pub esc: Option<device_type::Esctype>,

    pub eeprom: Option<device_type::EepromType>,

    pub device_type_choice: device_type::DeviceTypeChoice,

    pub vendor_specific: Option<String>,
}

} // verus!
