//! ESI (EtherCAT Slave Information) XML data model: `device_type::mailbox_type::ao_e_type::init_cmd_type`.
use vstd::prelude::*;

verus! {

#[derive(PartialEq, Debug, Clone)]

pub enum TransitionType {
    Ip,
    Ps,
    So,
    Sp,
    Op,
    Os,
    __Unknown__(String),
}

impl Default for TransitionType {
    fn default() -> (r: TransitionType)
        ensures
            r is __Unknown__,
    {
        Self::__Unknown__("No valid variants".to_owned())
    }
}

} // verus!
