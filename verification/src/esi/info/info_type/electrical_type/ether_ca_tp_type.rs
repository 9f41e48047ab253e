//! ESI (EtherCAT Slave Information) XML data model: `info_type::electrical_type::ether_ca_tp_type`.
use vstd::prelude::*;
pub mod device_type;
pub mod power_supply_type;

verus! {

#[derive(Default, Clone, PartialEq, Debug)]
pub struct DeviceType {
    pub us: device_type::UsType,

    pub up: Option<device_type::UpType>,
}


#[derive(Default, Clone, PartialEq, Debug)]
pub struct PowerSupplyType {
    pub us: Option<power_supply_type::UsType>,

    pub up: Option<power_supply_type::UpType>,
}

} // verus!
