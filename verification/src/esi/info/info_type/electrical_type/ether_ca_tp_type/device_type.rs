//! ESI (EtherCAT Slave Information) XML data model: `info_type::electrical_type::ether_ca_tp_type::device_type`.
use vstd::prelude::*;
pub mod us_type;
pub mod up_type;

verus! {

#[derive(Default, Clone, PartialEq, Debug)]
pub struct UsType {
    // If power comes from PowerSupply instead of Port 0
    pub power_supply: Option<bool>,

    // wenn nicht angegeben, wird die MinVoltage von 20,4 V angenommen
    pub min_voltage: Option<us_type::MinVoltageType>,

    // max. Stromverbrauch bei 24V
    pub current: Option<us_type::CurrentType>,

    // falls vorhanden wird Us nach aussen geführt
    pub external: Option<us_type::ExternalType>,
}


#[derive(Default, Clone, PartialEq, Debug)]
pub struct UpType {
    // If power comes from PowerSupply instead of Port 0
    pub power_supply: Option<bool>,

    // wenn nicht angegeben, wird die MinVoltage von 20,4 V angenommen
    pub min_voltage: Option<String>,

    // max. Stromverbrauch bei 24V
    pub current: Option<up_type::CurrentType>,

    // falls vorhanden wird Up nach aussen geführt
    pub external: Option<up_type::ExternalType>,
}

} // verus!
