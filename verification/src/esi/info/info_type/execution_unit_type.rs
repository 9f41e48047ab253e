//! ESI (EtherCAT Slave Information) XML data model: `info_type::execution_unit_type`.
use vstd::prelude::*;

verus! {

#[derive(PartialEq, Debug, Clone)]

pub enum TypeType {
    Primary,
    Secondary,
    /// The value `None`.
    Absent,
    __Unknown__(String),
}

impl Default for TypeType {
    fn default() -> (r: TypeType)
        ensures
            r is __Unknown__,
    {
        Self::__Unknown__("No valid variants".to_owned())
    }
}

} // verus!
