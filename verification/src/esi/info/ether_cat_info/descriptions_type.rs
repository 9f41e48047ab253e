//! ESI (EtherCAT Slave Information) XML data model: `ether_cat_info::descriptions_type`.
use vstd::prelude::*;
use crate::esi::info::DeviceType;
use crate::esi::info::GroupType;
pub mod groups_type;
pub mod devices_type;
pub mod modules_type;

verus! {

#[derive(Default, Clone, PartialEq, Debug)]
pub struct GroupsType {
    pub group: Vec<groups_type::GroupType>,
}


#[derive(Default, Clone, PartialEq, Debug)]
pub struct DevicesType {
    pub device: Vec<devices_type::DeviceType>,
}


#[derive(Default, Clone, PartialEq, Debug)]
pub struct ModulesType {
    pub module: Vec<modules_type::ModuleType>,
}

} // verus!
