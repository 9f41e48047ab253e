//! ESI (EtherCAT Slave Information) XML data model: `info_type::mailbox_type`.
use vstd::prelude::*;

verus! {

#[derive(Default, Clone, PartialEq, Debug)]
pub struct TimeoutType {
    pub request_timeout: i32,

    pub response_timeout: i32,
}

} // verus!
