//! ESI (EtherCAT Slave Information) XML data model.
use vstd::prelude::*;
pub mod ether_cat_info;
pub mod device_type;
pub mod group_type;
pub mod eeprom_type;
pub mod info_type;
pub mod slot_type;

verus! {

#[derive(Default, Clone, PartialEq, Debug)]
pub struct EtherCATInfo {
    pub info_reference: Vec<String>,

    pub vendor: ether_cat_info::VendorType,

    pub descriptions: ether_cat_info::DescriptionsType,

    pub version: Option<String>,
}


#[derive(Default, Clone, PartialEq, Debug)]
pub struct DeviceType {
    // (SCI)
    pub sci: Option<device_type::SciType>,

    pub _type: device_type::TypeType,

    pub hide_type: Vec<device_type::HideTypeType>,

    pub alternative_type: Vec<device_type::AlternativeTypeType>,

    pub sub_device: Vec<device_type::SubDeviceType>,

    pub name: Vec<String>,

    pub comment: Vec<String>,

    pub url: Vec<String>,

    pub info: Option<InfoType>,

    pub group_type: String,

    pub profile: Vec<device_type::ProfileType>,

    pub fmmu: Vec<device_type::FmmuType>,

    pub sm: Vec<device_type::SmType>,

    pub su: Vec<device_type::SuType>,

    pub rx_pdo: Vec<String>,

    pub tx_pdo: Vec<String>,

    pub mailbox: Option<device_type::MailboxType>,

    pub dc: Option<device_type::DcType>,

    pub slots: Option<device_type::SlotsType>,

    pub esc: Option<device_type::Esctype>,

    pub eeprom: Option<device_type::EepromType>,

    pub device_type_choice: device_type::DeviceTypeChoice,

    pub vendor_specific: Option<String>,
}


#[derive(Default, Clone, PartialEq, Debug)]
pub struct GroupType {
    pub _type: String,

    pub name: Vec<String>,

    pub comment: Vec<String>,

    pub group_type_choice: group_type::GroupTypeChoice,

    pub vendor_specific: Option<String>,
}


#[derive(Default, Clone, PartialEq, Debug)]
pub struct EepromType {
    pub eeprom_type_choice: eeprom_type::EepromTypeChoice,

    pub vendor_specific: Option<String>,
}


#[derive(Default, Clone, PartialEq, Debug)]
pub struct InfoType {
    pub electrical: Option<info_type::ElectricalType>,

    pub state_machine: Option<info_type::StateMachineType>,

    pub mailbox: Option<info_type::MailboxType>,

    pub ether_cat_controller: Option<info_type::EtherCATControllerType>,

    pub port: Vec<info_type::PortType>,

    pub execution_unit: Vec<info_type::ExecutionUnitType>,

    pub vendor_specific: Option<String>,

    // obsolete
    pub station_alias_supported: Option<String>,

    pub identification_ado: Option<String>,

    pub identification_reg_134: Option<bool>,

    // for future use
    pub device_feature: Vec<info_type::DeviceFeatureType>,
}


#[derive(Default, Clone, PartialEq, Debug)]
pub struct SlotType {
    pub name: Vec<String>,

    pub slot_type_choice: slot_type::SlotTypeChoice,

    pub slot_group: Option<String>,

    pub min_instances: String,

    pub max_instances: String,

    pub slot_pdo_increment: Option<String>,

    pub slot_group_pdo_increment: Option<String>,

    pub slot_index_increment: Option<String>,

    pub slot_group_index_increment: Option<String>,

    pub tree_view: Option<String>,

    pub default: Option<String>,

    // automatically plugged when no other module is plugged to this slot
    pub fallback: Option<String>,
}

} // verus!
