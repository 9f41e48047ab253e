//! ESI (EtherCAT Slave Information) XML data model: `info_type::electrical_type::ether_ca_tp_type::power_supply_type`.
use vstd::prelude::*;

verus! {

#[derive(Default, Clone, PartialEq, Debug)]
pub struct UsType {
    pub max_current: String,
}

#[derive(Default, Clone, PartialEq, Debug)]
pub struct UpType {
    pub max_current: String,
}

} // verus!
