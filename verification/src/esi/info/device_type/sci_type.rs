//! ESI (EtherCAT Slave Information) XML data model: `device_type::sci_type`.
use vstd::prelude::*;
pub mod created_by_type;
pub mod target_specific_type;

verus! {

#[derive(Default, Clone, PartialEq, Debug)]
pub struct CreatedByType {
    pub company: String,

    pub vendor_id: Option<String>,

    pub tool: Option<created_by_type::ToolType>,
}


#[derive(Default, Clone, PartialEq, Debug)]
pub struct TargetSpecificType {
    pub aoe_net_id: Option<target_specific_type::AoeNetIdType>,

    pub eoe_mac_ip: Option<target_specific_type::EoeMacIpType>,

    pub dc_cycle_time: Option<target_specific_type::DcCycleTimeType>,

    pub module_idents: Option<target_specific_type::ModuleIdentsType>,
}

} // verus!
