//! ESI (EtherCAT Slave Information) XML data model: `ether_cat_info::descriptions_type::devices_type::device_type::mailbox_type::ao_e_type`.
use vstd::prelude::*;
pub mod init_cmd_type;

verus! {

#[derive(Default, Clone, PartialEq, Debug)]
pub struct InitCmdType {
    pub transition: Vec<init_cmd_type::TransitionType>,

    pub data: String,

    pub comment: Option<String>,
}

} // verus!
