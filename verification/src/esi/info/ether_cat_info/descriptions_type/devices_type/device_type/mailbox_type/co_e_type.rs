//! ESI (EtherCAT Slave Information) XML data model: `ether_cat_info::descriptions_type::devices_type::device_type::mailbox_type::co_e_type`.
use vstd::prelude::*;
pub mod init_cmd_type;

verus! {

#[derive(Default, Clone, PartialEq, Debug)]
pub struct ObjectType {
    // obsolete
    pub index: i32,

    // obsolete
    pub sub_index: i32,

    // obsolete
    pub data: String,

    // obsolete
    pub comment: Option<String>,
}

#[derive(Default, Clone, PartialEq, Debug)]
pub struct InitCmdType {
    pub transition: Vec<init_cmd_type::TransitionType>,

    pub index: String,

    pub sub_index: String,

    pub data: init_cmd_type::DataType,

    pub comment: Option<String>,

    // obsolete
    pub fixed: Option<bool>,

    pub complete_access: Option<bool>,

    pub overwritten_by_module: Option<bool>,
}

} // verus!
