//! ESI (EtherCAT Slave Information) XML data model: `info_type::electrical_type::ether_ca_tp_type::device_type::us_type`.
use vstd::prelude::*;
pub mod external_type;

verus! {

#[derive(Default, Clone, PartialEq, Debug)]
pub struct MinVoltageType(pub String);

#[derive(Default, Clone, PartialEq, Debug)]
pub struct CurrentType {
    // load characteristics
    pub _type: Option<String>,
}

#[derive(Default, Clone, PartialEq, Debug)]
pub struct ExternalType {
    pub channel: Vec<external_type::ChannelType>,
}

} // verus!
