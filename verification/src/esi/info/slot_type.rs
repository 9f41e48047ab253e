//! ESI (EtherCAT Slave Information) XML data model: `slot_type`.
use vstd::prelude::*;

verus! {

#[derive(PartialEq, Debug, Clone)]

pub enum SlotTypeChoice {
    ModuleIdent,
    ModuleClass,
    __Unknown__(String),
}

impl Default for SlotTypeChoice {
    fn default() -> (r: SlotTypeChoice)
        ensures
            r is __Unknown__,
    {
        Self::__Unknown__("No valid variants".to_owned())
    }
}

} // verus!
