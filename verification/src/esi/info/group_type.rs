//! ESI (EtherCAT Slave Information) XML data model: `group_type`.
use vstd::prelude::*;

verus! {

#[derive(PartialEq, Debug, Clone)]

pub enum GroupTypeChoice {
    // obsolete
    Image16X14(Option<String>),
    ImageFile16X14(Option<String>),
    ImageData16X14(Option<String>),
    __Unknown__(String),
}

impl Default for GroupTypeChoice {
    fn default() -> (r: GroupTypeChoice)
        ensures
            r is __Unknown__,
    {
        Self::__Unknown__("No valid variants".to_owned())
    }
}

} // verus!
