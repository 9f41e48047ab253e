//! ESI (EtherCAT Slave Information) XML data model: `info_type::device_feature_type`.
use vstd::prelude::*;

verus! {

#[derive(Default, Clone, PartialEq, Debug)]
pub struct RegisterType {
    // for future use;
    // in bytes
    pub start_address: i32,

    // for future use;
    // in bytes
    pub length: i32,

    // for future use
    pub bit_mask: Option<String>,
}

} // verus!
