//! ESI (EtherCAT Slave Information) XML data model: `device_type`.
use vstd::prelude::*;
use crate::esi::info::SlotType;
pub mod sci_type;
pub mod mailbox_type;
pub mod dc_type;
pub mod slots_type;
pub mod eeprom_type;

verus! {

#[derive(Default, Clone, PartialEq, Debug)]
pub struct SciType {
    pub name: Vec<String>,

    pub description: Vec<String>,

    pub guid: String,

    pub created_by: sci_type::CreatedByType,

    pub target_specific: Option<sci_type::TargetSpecificType>,

    pub vendor_specific: Option<String>,

    // Version of ETG.2000 on which this SCI is based on
    pub sci_version: Option<String>,
}


#[derive(Default, Clone, PartialEq, Debug)]
pub struct TypeType {
    pub product_code: Option<String>,

    pub revision_no: Option<String>,

    pub serial_no: Option<String>,

    pub check_product_code: Option<String>,

    pub check_revision_no: Option<String>,

    pub check_serial_no: Option<String>,

    // obsolete
    pub tc_sm_class: Option<String>,

    // obsolete
    pub tc_cfg_mode_safe_op: Option<bool>,

    pub use_lrd_lwr: Option<bool>,

    pub module_pdo_group: Option<i32>,

    // obsolete
    pub download_module_list: Option<bool>,

    pub show_hideable_sub_devices: Option<bool>,
}

#[derive(Default, Clone, PartialEq, Debug)]
pub struct HideTypeType {
    pub product_code: Option<String>,

    pub revision_no: Option<String>,

    // obsolete
    pub product_revision: Option<String>,
}

#[derive(Default, Clone, PartialEq, Debug)]
pub struct AlternativeTypeType {
    // for future use
    pub product_code: Option<String>,

    // for future use
    pub revision_no: Option<String>,
}

#[derive(Default, Clone, PartialEq, Debug)]
pub struct SubDeviceType {
    // for future use
    pub product_code: Option<String>,

    // for future use
    pub revision_no: Option<String>,

    pub previous_device: Option<i32>,

    pub previous_port_no: Option<i32>,

    pub hideable: Option<bool>,
}

#[derive(Default, Clone, PartialEq, Debug)]
pub struct ProfileType {
    // obsolete
    pub channel: Option<i32>,
}

#[derive(Default, Clone, PartialEq, Debug)]
pub struct FmmuType {
    // obsolete
    pub op_only: Option<bool>,

    pub sm: Option<i32>,

    pub su: Option<i32>,
}

#[derive(Default, Clone, PartialEq, Debug)]
pub struct SmType {
    pub min_size: Option<String>,

    pub max_size: Option<String>,

    pub default_size: Option<String>,

    pub start_address: Option<String>,

    pub control_byte: Option<String>,

    pub enable: Option<String>,

    // obsolete
    pub one_byte_mode: Option<bool>,

    pub _virtual: Option<bool>,

    // obsolete
    pub watchdog: Option<bool>,

    pub op_only: Option<bool>,

    // obsolete
    pub fixed_assignment: Option<bool>,
}

#[derive(Default, Clone, PartialEq, Debug)]
pub struct SuType {
    pub separate_su: Option<bool>,

    pub separate_frame: Option<bool>,

    // for future use
    pub depend_on_input_state: Option<bool>,

    pub frame_repeat_support: Option<bool>,
}

#[derive(Default, Clone, PartialEq, Debug)]
pub struct MailboxType {
    pub ao_e: Option<mailbox_type::AoEType>,

    pub eo_e: Option<mailbox_type::EoEType>,

    pub co_e: Option<mailbox_type::CoEType>,

    pub fo_e: Option<mailbox_type::FoEType>,

    pub so_e: Option<mailbox_type::SoEType>,

    pub vo_e: Option<mailbox_type::VoEType>,

    pub vendor_specific: Option<String>,

    pub data_link_layer: Option<bool>,

    // for future use
    pub real_time_mode: Option<bool>,
}


#[derive(Default, Clone, PartialEq, Debug)]
pub struct DcType {
    pub op_mode: Vec<dc_type::OpModeType>,

    pub vendor_specific: Option<String>,

    pub unknown_frmw: Option<bool>,

    pub unknown_64_bit: Option<bool>,

    pub external_ref_clock: Option<bool>,

    pub potential_reference_clock: Option<bool>,

    pub time_loop_control_only: Option<bool>,

    pub pdo_oversampling: Option<bool>,
}


#[derive(Default, Clone, PartialEq, Debug)]
pub struct SlotsType {
    pub slot: Vec<SlotType>,

    pub module_groups: Option<slots_type::ModuleGroupsType>,

    pub slot_group_data: Vec<slots_type::SlotGroupDataType>,

    pub module_pdo_group: Vec<slots_type::ModulePdoGroupType>,

    pub slot_selections: Vec<slots_type::SlotSelectionsType>,

    pub download_module_ident_list: Option<bool>,

    pub download_module_address_list: Option<bool>,

    pub download_module_list_transition: Option<String>,

    pub max_slot_count: Option<String>,

    pub max_slot_group_count: Option<String>,

    pub slot_pdo_increment: Option<String>,

    pub slot_group_pdo_increment: Option<String>,

    pub slot_index_increment: Option<String>,

    pub slot_group_index_increment: Option<String>,

    // obsolete
    pub identify_module_by: Option<String>,
}


#[derive(Default, Clone, PartialEq, Debug)]
pub struct Esctype {
    pub reg_0108: Option<String>,

    pub reg_0400: Option<String>,

    pub reg_0410: Option<String>,

    pub reg_0420: Option<String>,

    pub vendor_specific: Option<String>,
}

#[derive(Default, Clone, PartialEq, Debug)]
pub struct EepromType {
    pub assign_to_pdi: Option<bool>,

    pub eeprom_type_choice: eeprom_type::EepromTypeChoice,

    pub vendor_specific: Option<String>,
}


#[derive(PartialEq, Debug, Clone)]

pub enum DeviceTypeChoice {
    // obsolete
    Image16X14(Option<String>),
    ImageFile16X14(Option<String>),
    ImageData16X14(Option<String>),
    __Unknown__(String),
}

impl Default for DeviceTypeChoice {
    fn default() -> (r: DeviceTypeChoice)
        ensures
            r is __Unknown__,
    {
        Self::__Unknown__("No valid variants".to_owned())
    }
}

} // verus!
