//! ESI (EtherCAT Slave Information) XML data model: `ether_cat_info::descriptions_type::devices_type::device_type::slots_type::module_groups_type`.
use vstd::prelude::*;
pub mod module_group_type;

verus! {

#[derive(Default, Clone, PartialEq, Debug)]
pub struct ModuleGroupType {
    pub name: String,

    pub _type: String,

    pub class: Option<String>,

    pub module_ident: Vec<String>,

    pub module_group_choice: module_group_type::ModuleGroupChoice,

    pub id: String,
}

} // verus!
