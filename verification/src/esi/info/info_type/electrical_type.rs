//! ESI (EtherCAT Slave Information) XML data model: `info_type::electrical_type`.
use vstd::prelude::*;
use crate::esi::info::DeviceType;
pub mod ether_ca_tp_type;

verus! {

#[derive(Default, Clone, PartialEq, Debug)]
pub struct EtherCATpType {
    pub device: ether_ca_tp_type::DeviceType,

    // Externe Power Einspeisung
    pub power_supply: Option<ether_ca_tp_type::PowerSupplyType>,
}

} // verus!
