//! ESI (EtherCAT Slave Information) XML data model: `device_type::mailbox_type`.
use vstd::prelude::*;
pub mod ao_e_type;
pub mod eo_e_type;
pub mod co_e_type;
pub mod so_e_type;

verus! {

#[derive(Default, Clone, PartialEq, Debug)]
pub struct AoEType {
    pub init_cmd: Vec<ao_e_type::InitCmdType>,

    pub ads_router: Option<bool>,

    pub generate_own_net_id: Option<bool>,

    pub initialize_own_net_id: Option<bool>,
}


#[derive(Default, Clone, PartialEq, Debug)]
pub struct EoEType {
    pub init_cmd: Vec<eo_e_type::InitCmdType>,

    pub ip: Option<bool>,

    pub mac: Option<bool>,

    pub time_stamp: Option<bool>,
}


#[derive(Default, Clone, PartialEq, Debug)]
pub struct CoEType {
    // obsolete
    pub object: Vec<co_e_type::ObjectType>,

    pub init_cmd: Vec<co_e_type::InitCmdType>,

    pub sdo_info: Option<bool>,

    pub pdo_assign: Option<bool>,

    pub pdo_config: Option<bool>,

    pub pdo_upload: Option<bool>,

    pub complete_access: Option<bool>,

    pub eds_file: Option<String>,

    // obsolete
    pub ds402_channels: Option<i32>,

    pub segmented_sdo: Option<bool>,

    pub diag_history: Option<bool>,

    pub sdo_upload_with_max_length: Option<bool>,

    pub time_distribution: Option<bool>,
}


#[derive(Default, Clone, PartialEq, Debug)]
pub struct FoEType {}

#[derive(Default, Clone, PartialEq, Debug)]
pub struct SoEType {
    pub init_cmd: Vec<so_e_type::InitCmdType>,

    pub so_e_choice: so_e_type::SoEChoice,

    pub channel_count: Option<i32>,

    pub drive_follows_bit_3_support: Option<bool>,
}


#[derive(Default, Clone, PartialEq, Debug)]
pub struct VoEType {}

} // verus!
