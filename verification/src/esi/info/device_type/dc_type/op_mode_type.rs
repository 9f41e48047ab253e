//! ESI (EtherCAT Slave Information) XML data model: `device_type::dc_type::op_mode_type`.
use vstd::prelude::*;
pub mod sm_type;

verus! {

#[derive(Default, Clone, PartialEq, Debug)]
pub struct CycleTimeSync0Type {
    pub factor: Option<i32>,
}

#[derive(Default, Clone, PartialEq, Debug)]
pub struct ShiftTimeSync0Type {
    pub factor: Option<i32>,

    pub input: Option<bool>,

    pub output_delay_time: Option<i32>,

    pub input_delay_time: Option<i32>,
}

#[derive(Default, Clone, PartialEq, Debug)]
pub struct CycleTimeSync1Type {
    pub factor: Option<i32>,
}

#[derive(Default, Clone, PartialEq, Debug)]
pub struct ShiftTimeSync1Type {
    // for future use
    pub factor: Option<i32>,

    pub input: Option<bool>,

    pub output_delay_time: Option<i32>,

    pub input_delay_time: Option<i32>,
}

#[derive(Default, Clone, PartialEq, Debug)]
pub struct CycleTimeSync2Type {
    pub factor: Option<i32>,
}

#[derive(Default, Clone, PartialEq, Debug)]
pub struct ShiftTimeSync2Type {
    pub factor: Option<i32>,

    pub input: Option<bool>,

    pub output_delay_time: Option<i32>,

    pub input_delay_time: Option<i32>,
}

#[derive(Default, Clone, PartialEq, Debug)]
pub struct CycleTimeSync3Type {
    pub factor: Option<i32>,
}

#[derive(Default, Clone, PartialEq, Debug)]
pub struct ShiftTimeSync3Type {
    // for future use
    pub factor: Option<i32>,

    pub input: Option<bool>,

    pub output_delay_time: Option<i32>,

    pub input_delay_time: Option<i32>,
}

#[derive(Default, Clone, PartialEq, Debug)]
pub struct SmType {
    // obsolete
    pub sync_type: Option<i32>,

    // obsolete
    pub cycle_time: Option<sm_type::CycleTimeType>,

    // obsolete
    pub shift_time: Option<sm_type::ShiftTimeType>,

    pub pdo: Vec<sm_type::PdoType>,

    pub no: i32,
}

} // verus!
