//! ESI (EtherCAT Slave Information) XML data model: `ether_cat_info::descriptions_type::devices_type::device_type::sci_type::target_specific_type::module_idents_type`.
use vstd::prelude::*;

verus! {

#[derive(
    Default, Clone, PartialEq, Debug,
)]
pub struct ModuleIdentType {
    pub slot_no: i32,

    pub esi: String,

    pub sci: String,
}

} // verus!
