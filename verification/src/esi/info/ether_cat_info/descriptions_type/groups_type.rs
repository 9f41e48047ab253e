//! ESI (EtherCAT Slave Information) XML data model: `ether_cat_info::descriptions_type::groups_type`.
use vstd::prelude::*;
pub mod group_type;

verus! {

#[derive(Default, Clone, PartialEq, Debug)]
pub struct GroupType {
    pub sort_order: Option<i32>,

    pub parent_group: Option<String>,

    pub _type: String,

    pub name: Vec<String>,

    pub comment: Vec<String>,

    pub group_type_choice: group_type::GroupTypeChoice,

    pub vendor_specific: Option<String>,
}

} // verus!
