//! ESI (EtherCAT Slave Information) XML data model: `ether_cat_info::descriptions_type::devices_type::device_type::sci_type::target_specific_type`.
use vstd::prelude::*;
pub mod module_idents_type;

verus! {

#[derive(Default, Clone, PartialEq, Debug)]
pub struct AoeNetIdType {
    pub comment: Option<String>,
}

#[derive(Default, Clone, PartialEq, Debug)]
pub struct EoeMacIpType {
    pub comment: Option<String>,
}

#[derive(Default, Clone, PartialEq, Debug)]
pub struct DcCycleTimeType {
    pub comment: Option<String>,
}

#[derive(Default, Clone, PartialEq, Debug)]
pub struct ModuleIdentsType {
    pub module_ident: Vec<module_idents_type::ModuleIdentType>,
}

} // verus!
