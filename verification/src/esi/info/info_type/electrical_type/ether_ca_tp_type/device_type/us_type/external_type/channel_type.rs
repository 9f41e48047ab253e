//! ESI (EtherCAT Slave Information) XML data model: `info_type::electrical_type::ether_ca_tp_type::device_type::us_type::external_type::channel_type`.
use vstd::prelude::*;

verus! {

#[derive(
    Default, Clone, PartialEq, Debug,
)]
pub struct VoltageType {
    // load characteristics (default_ switching regulator)
    pub _type: Option<String>,
}

} // verus!
