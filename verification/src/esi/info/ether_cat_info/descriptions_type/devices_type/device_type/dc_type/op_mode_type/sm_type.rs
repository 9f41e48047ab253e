//! ESI (EtherCAT Slave Information) XML data model: `ether_cat_info::descriptions_type::devices_type::device_type::dc_type::op_mode_type::sm_type`.
use vstd::prelude::*;

verus! {

#[derive(
    Default, Clone, PartialEq, Debug,
)]
pub struct CycleTimeType {
    // obsolete
    pub factor: Option<i32>,

    pub base: i32,
}

#[derive(
    Default, Clone, PartialEq, Debug,
)]
pub struct ShiftTimeType {
    // obsolete
    pub min_after_sync: Option<i32>,

    // obsolete
    pub min_before_frame: Option<i32>,

    pub base: i32,
}

#[derive(
    Default, Clone, PartialEq, Debug,
)]
pub struct PdoType {
    pub os_fac: Option<i32>,

    pub base: String,
}

} // verus!
