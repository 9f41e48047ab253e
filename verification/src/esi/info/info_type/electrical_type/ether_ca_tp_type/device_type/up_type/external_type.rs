//! ESI (EtherCAT Slave Information) XML data model: `info_type::electrical_type::ether_ca_tp_type::device_type::up_type::external_type`.
use vstd::prelude::*;
pub mod channel_type;

verus! {

#[derive(Default, Clone, PartialEq, Debug)]
pub struct ChannelType {
    pub name: Vec<String>,

    // muss angegeben werden wenn die Spannung ungleich Up ist , e.g. 5V.
    // Falls nichts angegeben wird, wird Us untranfsormiert ausgegeben.
    pub voltage: Option<channel_type::VoltageType>,
}

} // verus!
