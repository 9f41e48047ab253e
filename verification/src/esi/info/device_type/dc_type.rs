//! ESI (EtherCAT Slave Information) XML data model: `device_type::dc_type`.
use vstd::prelude::*;
use crate::esi::info::device_type::SmType;
pub mod op_mode_type;

verus! {

#[derive(Default, Clone, PartialEq, Debug)]
pub struct OpModeType {
    pub name: String,

    pub desc: Option<String>,

    pub assign_activate: String,

    pub activate_additional: Option<String>,

    pub cycle_time_sync_0: Option<op_mode_type::CycleTimeSync0Type>,

    pub shift_time_sync_0: Option<op_mode_type::ShiftTimeSync0Type>,

    pub cycle_time_sync_1: Option<op_mode_type::CycleTimeSync1Type>,

    pub shift_time_sync_1: Option<op_mode_type::ShiftTimeSync1Type>,

    pub cycle_time_sync_2: Option<op_mode_type::CycleTimeSync2Type>,

    pub shift_time_sync_2: Option<op_mode_type::ShiftTimeSync2Type>,

    pub cycle_time_sync_3: Option<op_mode_type::CycleTimeSync3Type>,

    pub shift_time_sync_3: Option<op_mode_type::ShiftTimeSync3Type>,

    pub sm: Vec<op_mode_type::SmType>,

    pub vendor_specific: Option<String>,
}

} // verus!
