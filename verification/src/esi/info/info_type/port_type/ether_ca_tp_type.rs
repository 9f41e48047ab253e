//! ESI (EtherCAT Slave Information) XML data model: `info_type::port_type::ether_ca_tp_type`.
use vstd::prelude::*;

verus! {

#[derive(Default, Clone, PartialEq, Debug)]
pub struct UsType {
    // If power comes from PowerSupply instead of Port 0
    pub power_supply: Option<bool>,

    // Default 3A
    pub max_current: Option<String>,

    pub resistance: String,
}

#[derive(Default, Clone, PartialEq, Debug)]
pub struct UpType {
    // If power comes from PowerSupply instead of Port 0
    pub power_supply: Option<bool>,

    // Default 3A
    pub max_current: Option<String>,

    pub resistance: String,
}

} // verus!
