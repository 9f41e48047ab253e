//! ESI (EtherCAT Slave Information) XML data model: `info_type::port_type`.
use vstd::prelude::*;
pub mod ether_ca_tp_type;

verus! {

#[derive(PartialEq, Debug, Clone)]

pub enum TypeType {
    Mii,
    Ebus,
    /// The value `None`.
    Absent,
    __Unknown__(String),
}

impl Default for TypeType {
    fn default() -> (r: TypeType)
        ensures
            r is __Unknown__,
    {
        Self::__Unknown__("No valid variants".to_owned())
    }
}

#[derive(Default, Clone, PartialEq, Debug)]
pub struct ConnectorType {
    pub vendor_id: Option<String>,
}

#[derive(Default, Clone, PartialEq, Debug)]
pub struct EtherCATpType {
    pub us: Option<ether_ca_tp_type::UsType>,

    pub up: Option<ether_ca_tp_type::UpType>,
}

} // verus!
