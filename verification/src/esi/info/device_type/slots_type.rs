//! ESI (EtherCAT Slave Information) XML data model: `device_type::slots_type`.
use vstd::prelude::*;
pub mod module_groups_type;
pub mod slot_group_data_type;

verus! {

#[derive(Default, Clone, PartialEq, Debug)]
pub struct ModuleGroupsType {
    pub module_group: Vec<module_groups_type::ModuleGroupType>,
}


#[derive(Default, Clone, PartialEq, Debug)]
pub struct SlotGroupDataType {
    pub name: Vec<String>,

    pub module_groups: Option<slot_group_data_type::ModuleGroupsType>,

    pub slot_group_data_choice: slot_group_data_type::SlotGroupDataChoice,

    pub slot_group: String,
}


#[derive(Default, Clone, PartialEq, Debug)]
pub struct ModulePdoGroupType {
    pub alignment: Option<i32>,

    pub rx_pdo: Option<String>,

    pub tx_pdo: Option<String>,
}

#[derive(Default, Clone, PartialEq, Debug)]
pub struct SlotSelectionsType {
    pub name: String,

    pub module_ident: Vec<String>,
}

} // verus!
