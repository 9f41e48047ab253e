//! EtherCAT Slave Information (ESI) device description files.
pub mod info;
