//! ESI (EtherCAT Slave Information) XML data model: `info_type`.
use vstd::prelude::*;
pub mod electrical_type;
pub mod state_machine_type;
pub mod mailbox_type;
pub mod port_type;
pub mod execution_unit_type;
pub mod device_feature_type;

verus! {

#[derive(Default, Clone, PartialEq, Debug)]
pub struct ElectricalType {
    // Set Value = 0, in case of only EtherCATp is needed
    pub e_bus_current: i32,

    pub ether_ca_tp: Option<electrical_type::EtherCATpType>,
}


#[derive(Default, Clone, PartialEq, Debug)]
pub struct StateMachineType {
    pub timeout: Option<state_machine_type::TimeoutType>,

    pub behavior: Option<state_machine_type::BehaviorType>,
}


#[derive(Default, Clone, PartialEq, Debug)]
pub struct MailboxType {
    pub timeout: mailbox_type::TimeoutType,
}


#[derive(Default, Clone, PartialEq, Debug)]
pub struct EtherCATControllerType {
    pub dpram_size: Option<i32>,

    pub sm_count: Option<i32>,

    pub fmmu_count: Option<i32>,

    pub dc_sync_count: Option<i32>,

    pub dc_latch_count: Option<i32>,
}

#[derive(Default, Clone, PartialEq, Debug)]
pub struct PortType {
    pub _type: port_type::TypeType,

    pub connector: Vec<port_type::ConnectorType>,

    pub label: Option<String>,

    // For future use
    pub rx_delay: Option<i32>,

    // For future use
    pub tx_delay: Option<i32>,

    pub physical_phy_addr: Option<i32>,

    pub ether_ca_tp: Option<port_type::EtherCATpType>,
}


#[derive(Default, Clone, PartialEq, Debug)]
pub struct ExecutionUnitType {
    pub _type: execution_unit_type::TypeType,

    // For future use
    pub rx_delay: Option<i32>,

    // For future use
    pub tx_delay: Option<i32>,
}


#[derive(Default, Clone, PartialEq, Debug)]
pub struct DeviceFeatureType {
    // for future use
    pub name: String,

    // for future use
    pub value: Option<String>,

    // for future use
    pub description: Option<String>,

    // for future use
    pub register: Vec<device_feature_type::RegisterType>,
}

} // verus!
