//! ESI (EtherCAT Slave Information) XML data model: `device_type::sci_type::created_by_type`.
use vstd::prelude::*;

verus! {

#[derive(Default, Clone, PartialEq, Debug)]
pub struct ToolType {
    pub version: Option<String>,
}

} // verus!
