//! ESI (EtherCAT Slave Information) XML data model: `ether_cat_info`.
use vstd::prelude::*;
pub mod descriptions_type;

verus! {

#[derive(Default, Clone, PartialEq, Debug)]
pub struct VendorType {
    pub file_version: Option<i32>,
}

#[derive(Default, Clone, PartialEq, Debug)]
pub struct DescriptionsType {
    pub groups: descriptions_type::GroupsType,

    pub devices: descriptions_type::DevicesType,

    pub modules: Option<descriptions_type::ModulesType>,
}

} // verus!
