//! ESI (EtherCAT Slave Information) XML data model: `device_type::slots_type::module_groups_type::module_group_type`.
use vstd::prelude::*;

verus! {

#[derive(PartialEq, Debug, Clone)]

pub enum ModuleGroupChoice {
    ImageFile16X14(Option<String>),
    ImageData16X14(Option<String>),
    __Unknown__(String),
}

impl Default for ModuleGroupChoice {
    fn default() -> (r: ModuleGroupChoice)
        ensures
            r is __Unknown__,
    {
        Self::__Unknown__("No valid variants".to_owned())
    }
}

} // verus!
