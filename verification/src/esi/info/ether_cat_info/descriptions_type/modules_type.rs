//! ESI (EtherCAT Slave Information) XML data model: `ether_cat_info::descriptions_type::modules_type`.
use vstd::prelude::*;

verus! {

#[derive(Default, Clone, PartialEq, Debug)]
pub struct ModuleType {
    pub crc_32: Option<String>,
}

} // verus!
