//! ESI (EtherCAT Slave Information) XML data model: `device_type::mailbox_type::eo_e_type`.
use vstd::prelude::*;
pub mod init_cmd_type;

verus! {

#[derive(Default, Clone, PartialEq, Debug)]
pub struct InitCmdType {
    pub transition: Vec<init_cmd_type::TransitionType>,

    pub _type: i32,

    pub data: String,

    pub comment: Option<String>,
}

} // verus!
