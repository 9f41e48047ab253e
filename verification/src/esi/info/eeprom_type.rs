//! ESI (EtherCAT Slave Information) XML data model: `eeprom_type`.
use vstd::prelude::*;

verus! {

#[derive(PartialEq, Debug, Clone)]

pub enum EepromTypeChoice {
    Data(String),
    __Unknown__(String),
}

impl Default for EepromTypeChoice {
    fn default() -> (r: EepromTypeChoice)
        ensures
            r is __Unknown__,
    {
        Self::__Unknown__("No valid variants".to_owned())
    }
}

} // verus!
