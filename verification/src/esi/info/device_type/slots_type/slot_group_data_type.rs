//! ESI (EtherCAT Slave Information) XML data model: `device_type::slots_type::slot_group_data_type`.
use vstd::prelude::*;

verus! {

#[derive(Default, Clone, PartialEq, Debug)]
pub struct ModuleGroupsType {
    pub id: Vec<String>,
}

#[derive(PartialEq, Debug, Clone)]

pub enum SlotGroupDataChoice {
    ImageFile16X14(Option<String>),
    ImageData16X14(Option<String>),
    __Unknown__(String),
}

impl Default for SlotGroupDataChoice {
    fn default() -> (r: SlotGroupDataChoice)
        ensures
            r is __Unknown__,
    {
        Self::__Unknown__("No valid variants".to_owned())
    }
}

} // verus!
