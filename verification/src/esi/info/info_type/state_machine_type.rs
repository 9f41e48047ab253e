//! ESI (EtherCAT Slave Information) XML data model: `info_type::state_machine_type`.
use vstd::prelude::*;

verus! {

#[derive(Default, Clone, PartialEq, Debug)]
pub struct TimeoutType {
    pub preop_timeout: i32,

    pub safeop_op_timeout: i32,

    pub back_to_init_timeout: i32,

    pub back_to_safeop_timeout: i32,
}

#[derive(Default, Clone, PartialEq, Debug)]
pub struct BehaviorType {
    pub start_to_init: Option<bool>,

    pub start_to_preop: Option<bool>,

    pub start_to_safeop: Option<bool>,

    pub start_to_safeop_no_sync: Option<bool>,
}

} // verus!
