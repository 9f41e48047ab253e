//! ESI (EtherCAT Slave Information) XML data model: `device_type::mailbox_type::so_e_type`.
use vstd::prelude::*;
pub mod init_cmd_type;

verus! {

#[derive(Default, Clone, PartialEq, Debug)]
pub struct InitCmdType {
    pub transition: Vec<init_cmd_type::TransitionType>,

    pub idn: i32,

    pub data: String,

    pub comment: Option<String>,

    pub chn: Option<i32>,
}


#[derive(PartialEq, Debug, Clone)]

pub enum SoEChoice {
    DiagFile(Vec<String>),
    DiagMessages(Option<String>),
    __Unknown__(String),
}

impl Default for SoEChoice {
    fn default() -> (r: SoEChoice)
        ensures
            r is __Unknown__,
    {
        Self::__Unknown__("No valid variants".to_owned())
    }
}

} // verus!
