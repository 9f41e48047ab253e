//! AL (Application Layer) status codes.
use vstd::prelude::*;
use crate::wire::{le_u16_at, read_u16};
use crate::text::{hex4, push_hex4};
use vstd::string::StringExecFns;

verus! {

/// AL (Application Layer) Status Code, defined in ETG1000.6 Table 11.
#[derive(Debug, Copy, Clone, PartialEq, Eq, Structural)]
pub enum AlStatusCode {
    /// No error
    NoError,
    /// Unspecified error
    UnspecifiedError,
    /// No Memory
    NoMemory,
    /// Invalid Device Setup
    InvalidDeviceSetup,
    /// Reserved due to compatibility reasons
    CompatibilityReserved,
    /// Invalid requested state change
    InvalidRequestedStateChange,
    /// Unknown requested state
    UnknownRequestedState,
    /// Bootstrap not supported
    BootstrapNotSupported,
    /// No valid firmware
    NoValidFirmware,
    /// Invalid mailbox configuration
    InvalidMailboxConfiguration,
    /// Invalid mailbox configuration (second code)
    InvalidMailboxConfiguration2,
    /// Invalid sync manager configuration
    InvalidSyncManagerConfiguration,
    /// No valid inputs available
    NoValidInputsAvailable,
    /// No valid outputs
    NoValidOutputs,
    /// Synchronization error
    SynchronizationError,
    /// Sync manager watchdog
    SyncManagerWatchdog,
    /// Invalid Sync Manager Types
    InvalidSyncManagerTypes,
    /// Invalid Output Configuration
    InvalidOutputConfiguration,
    /// Invalid Input Configuration
    InvalidInputConfiguration,
    /// Invalid Watchdog Configuration
    InvalidWatchdogConfiguration,
    /// Slave needs cold start
    SlaveNeedsColdStart,
    /// Slave needs INIT
    SlaveNeedsInit,
    /// Slave needs PREOP
    SlaveNeedsPreop,
    /// Slave needs SAFEOP
    SlaveNeedsSafeop,
    /// Invalid Input Mapping
    InvalidInputMapping,
    /// Invalid Output Mapping
    InvalidOutputMapping,
    /// Inconsistent Settings
    InconsistentSettings,
    /// FreeRun not supported
    FreeRunNotSupported,
    /// SyncMode not supported
    SyncModeNotSupported,
    /// FreeRun needs 3 Buffer Mode
    FreeRunNeeds3BufferMode,
    /// Background Watchdog
    BackgroundWatchdog,
    /// No Valid Inputs and Outputs
    NoValidInputsAndOutputs,
    /// Fatal Sync Error
    FatalSyncError,
    /// No Sync Error
    NoSyncError,
    /// Invalid DC SYNC Configuration
    InvalidDcSyncConfiguration,
    /// Invalid DC Latch Configuration
    InvalidDcLatchConfiguration,
    /// PLL Error
    PllError,
    /// DC Sync IO Error
    DcSyncIoError,
    /// DC Sync Timeout Error
    DcSyncTimeoutError,
    /// DC Invalid Sync Cycle Time
    DcInvalidSyncCycleTime,
    /// DC Sync0 Cycle Time
    DcSync0CycleTime,
    /// DC Sync1 Cycle Time
    DcSync1CycleTime,
    /// Mailbox AoE
    MbxAoe,
    /// Mailbox EoE
    MbxEoe,
    /// Mailbox CoE
    MbxCoe,
    /// Mailbox FoE
    MbxFoe,
    /// Mailbox SoE
    MbxSoe,
    /// Mailbox VoE
    MbxVoe,
    /// EEPROM no access
    EepromNoAccess,
    /// EEPROM Error
    EepromError,
    /// Slave restarted locally
    SlaveRestartedLocally,
    /// Device Identification value updated
    DeviceIdentificationValueUpdated,
    /// Application controller available
    ApplicationControllerAvailable,
    /// Any other status code; codes from 0x8000 are vendor specific.
    Unknown(u16),
}

/// The status code a raw value names; values without a named code are kept as they are.
pub open spec fn al_status_code_from_u16(n: u16) -> AlStatusCode {
    if n == 0x0000 {
        AlStatusCode::NoError
    } else if n == 0x0001 {
        AlStatusCode::UnspecifiedError
    } else if n == 0x0002 {
        AlStatusCode::NoMemory
    } else if n == 0x0003 {
        AlStatusCode::InvalidDeviceSetup
    } else if n == 0x0005 {
        AlStatusCode::CompatibilityReserved
    } else if n == 0x0011 {
        AlStatusCode::InvalidRequestedStateChange
    } else if n == 0x0012 {
        AlStatusCode::UnknownRequestedState
    } else if n == 0x0013 {
        AlStatusCode::BootstrapNotSupported
    } else if n == 0x0014 {
        AlStatusCode::NoValidFirmware
    } else if n == 0x0015 {
        AlStatusCode::InvalidMailboxConfiguration
    } else if n == 0x0016 {
        AlStatusCode::InvalidMailboxConfiguration2
    } else if n == 0x0017 {
        AlStatusCode::InvalidSyncManagerConfiguration
    } else if n == 0x0018 {
        AlStatusCode::NoValidInputsAvailable
    } else if n == 0x0019 {
        AlStatusCode::NoValidOutputs
    } else if n == 0x001A {
        AlStatusCode::SynchronizationError
    } else if n == 0x001B {
        AlStatusCode::SyncManagerWatchdog
    } else if n == 0x001C {
        AlStatusCode::InvalidSyncManagerTypes
    } else if n == 0x001D {
        AlStatusCode::InvalidOutputConfiguration
    } else if n == 0x001E {
        AlStatusCode::InvalidInputConfiguration
    } else if n == 0x001F {
        AlStatusCode::InvalidWatchdogConfiguration
    } else if n == 0x0020 {
        AlStatusCode::SlaveNeedsColdStart
    } else if n == 0x0021 {
        AlStatusCode::SlaveNeedsInit
    } else if n == 0x0022 {
        AlStatusCode::SlaveNeedsPreop
    } else if n == 0x0023 {
        AlStatusCode::SlaveNeedsSafeop
    } else if n == 0x0024 {
        AlStatusCode::InvalidInputMapping
    } else if n == 0x0025 {
        AlStatusCode::InvalidOutputMapping
    } else if n == 0x0026 {
        AlStatusCode::InconsistentSettings
    } else if n == 0x0027 {
        AlStatusCode::FreeRunNotSupported
    } else if n == 0x0028 {
        AlStatusCode::SyncModeNotSupported
    } else if n == 0x0029 {
        AlStatusCode::FreeRunNeeds3BufferMode
    } else if n == 0x002A {
        AlStatusCode::BackgroundWatchdog
    } else if n == 0x002B {
        AlStatusCode::NoValidInputsAndOutputs
    } else if n == 0x002C {
        AlStatusCode::FatalSyncError
    } else if n == 0x002D {
        AlStatusCode::NoSyncError
    } else if n == 0x0030 {
        AlStatusCode::InvalidDcSyncConfiguration
    } else if n == 0x0031 {
        AlStatusCode::InvalidDcLatchConfiguration
    } else if n == 0x0032 {
        AlStatusCode::PllError
    } else if n == 0x0033 {
        AlStatusCode::DcSyncIoError
    } else if n == 0x0034 {
        AlStatusCode::DcSyncTimeoutError
    } else if n == 0x0035 {
        AlStatusCode::DcInvalidSyncCycleTime
    } else if n == 0x0036 {
        AlStatusCode::DcSync0CycleTime
    } else if n == 0x0037 {
        AlStatusCode::DcSync1CycleTime
    } else if n == 0x0041 {
        AlStatusCode::MbxAoe
    } else if n == 0x0042 {
        AlStatusCode::MbxEoe
    } else if n == 0x0043 {
        AlStatusCode::MbxCoe
    } else if n == 0x0044 {
        AlStatusCode::MbxFoe
    } else if n == 0x0045 {
        AlStatusCode::MbxSoe
    } else if n == 0x004F {
        AlStatusCode::MbxVoe
    } else if n == 0x0050 {
        AlStatusCode::EepromNoAccess
    } else if n == 0x0051 {
        AlStatusCode::EepromError
    } else if n == 0x0060 {
        AlStatusCode::SlaveRestartedLocally
    } else if n == 0x0061 {
        AlStatusCode::DeviceIdentificationValueUpdated
    } else if n == 0x00F0 {
        AlStatusCode::ApplicationControllerAvailable
    } else {
        AlStatusCode::Unknown(n)
    }
}

/// The raw value of a status code.
pub open spec fn al_status_code_to_u16(c: AlStatusCode) -> u16 {
    match c {
        AlStatusCode::NoError => 0x0000,
        AlStatusCode::UnspecifiedError => 0x0001,
        AlStatusCode::NoMemory => 0x0002,
        AlStatusCode::InvalidDeviceSetup => 0x0003,
        AlStatusCode::CompatibilityReserved => 0x0005,
        AlStatusCode::InvalidRequestedStateChange => 0x0011,
        AlStatusCode::UnknownRequestedState => 0x0012,
        AlStatusCode::BootstrapNotSupported => 0x0013,
        AlStatusCode::NoValidFirmware => 0x0014,
        AlStatusCode::InvalidMailboxConfiguration => 0x0015,
        AlStatusCode::InvalidMailboxConfiguration2 => 0x0016,
        AlStatusCode::InvalidSyncManagerConfiguration => 0x0017,
        AlStatusCode::NoValidInputsAvailable => 0x0018,
        AlStatusCode::NoValidOutputs => 0x0019,
        AlStatusCode::SynchronizationError => 0x001A,
        AlStatusCode::SyncManagerWatchdog => 0x001B,
        AlStatusCode::InvalidSyncManagerTypes => 0x001C,
        AlStatusCode::InvalidOutputConfiguration => 0x001D,
        AlStatusCode::InvalidInputConfiguration => 0x001E,
        AlStatusCode::InvalidWatchdogConfiguration => 0x001F,
        AlStatusCode::SlaveNeedsColdStart => 0x0020,
        AlStatusCode::SlaveNeedsInit => 0x0021,
        AlStatusCode::SlaveNeedsPreop => 0x0022,
        AlStatusCode::SlaveNeedsSafeop => 0x0023,
        AlStatusCode::InvalidInputMapping => 0x0024,
        AlStatusCode::InvalidOutputMapping => 0x0025,
        AlStatusCode::InconsistentSettings => 0x0026,
        AlStatusCode::FreeRunNotSupported => 0x0027,
        AlStatusCode::SyncModeNotSupported => 0x0028,
        AlStatusCode::FreeRunNeeds3BufferMode => 0x0029,
        AlStatusCode::BackgroundWatchdog => 0x002A,
        AlStatusCode::NoValidInputsAndOutputs => 0x002B,
        AlStatusCode::FatalSyncError => 0x002C,
        AlStatusCode::NoSyncError => 0x002D,
        AlStatusCode::InvalidDcSyncConfiguration => 0x0030,
        AlStatusCode::InvalidDcLatchConfiguration => 0x0031,
        AlStatusCode::PllError => 0x0032,
        AlStatusCode::DcSyncIoError => 0x0033,
        AlStatusCode::DcSyncTimeoutError => 0x0034,
        AlStatusCode::DcInvalidSyncCycleTime => 0x0035,
        AlStatusCode::DcSync0CycleTime => 0x0036,
        AlStatusCode::DcSync1CycleTime => 0x0037,
        AlStatusCode::MbxAoe => 0x0041,
        AlStatusCode::MbxEoe => 0x0042,
        AlStatusCode::MbxCoe => 0x0043,
        AlStatusCode::MbxFoe => 0x0044,
        AlStatusCode::MbxSoe => 0x0045,
        AlStatusCode::MbxVoe => 0x004F,
        AlStatusCode::EepromNoAccess => 0x0050,
        AlStatusCode::EepromError => 0x0051,
        AlStatusCode::SlaveRestartedLocally => 0x0060,
        AlStatusCode::DeviceIdentificationValueUpdated => 0x0061,
        AlStatusCode::ApplicationControllerAvailable => 0x00F0,
        AlStatusCode::Unknown(n) => n,
    }
}

/// The text describing a status code.
pub open spec fn al_status_code_text(c: AlStatusCode) -> Seq<char> {
    match c {
        AlStatusCode::NoError => "No error"@,
        AlStatusCode::UnspecifiedError => "Unspecified error"@,
        AlStatusCode::NoMemory => "No Memory"@,
        AlStatusCode::InvalidDeviceSetup => "Invalid Device Setup"@,
        AlStatusCode::CompatibilityReserved => "Reserved due to compatibility reasons"@,
        AlStatusCode::InvalidRequestedStateChange => "Invalid requested state change"@,
        AlStatusCode::UnknownRequestedState => "Unknown requested state"@,
        AlStatusCode::BootstrapNotSupported => "Bootstrap not supported"@,
        AlStatusCode::NoValidFirmware => "No valid firmware"@,
        AlStatusCode::InvalidMailboxConfiguration => "Invalid mailbox configuration"@,
        AlStatusCode::InvalidMailboxConfiguration2 => "Invalid mailbox configuration"@,
        AlStatusCode::InvalidSyncManagerConfiguration => "Invalid sync manager configuration"@,
        AlStatusCode::NoValidInputsAvailable => "No valid inputs available"@,
        AlStatusCode::NoValidOutputs => "No valid outputs"@,
        AlStatusCode::SynchronizationError => "Synchronization error"@,
        AlStatusCode::SyncManagerWatchdog => "Sync manager watchdog"@,
        AlStatusCode::InvalidSyncManagerTypes => "Invalid Sync Manager Types"@,
        AlStatusCode::InvalidOutputConfiguration => "Invalid Output Configuration"@,
        AlStatusCode::InvalidInputConfiguration => "Invalid Input Configuration"@,
        AlStatusCode::InvalidWatchdogConfiguration => "Invalid Watchdog Configuration"@,
        AlStatusCode::SlaveNeedsColdStart => "Slave needs cold start"@,
        AlStatusCode::SlaveNeedsInit => "Slave needs INIT"@,
        AlStatusCode::SlaveNeedsPreop => "Slave needs PREOP"@,
        AlStatusCode::SlaveNeedsSafeop => "Slave needs SAFEOP"@,
        AlStatusCode::InvalidInputMapping => "Invalid Input Mapping"@,
        AlStatusCode::InvalidOutputMapping => "Invalid Output Mapping"@,
        AlStatusCode::InconsistentSettings => "Inconsistent Settings"@,
        AlStatusCode::FreeRunNotSupported => "FreeRun not supported"@,
        AlStatusCode::SyncModeNotSupported => "SyncMode not supported"@,
        AlStatusCode::FreeRunNeeds3BufferMode => "FreeRun needs 3 Buffer Mode"@,
        AlStatusCode::BackgroundWatchdog => "Background Watchdog"@,
        AlStatusCode::NoValidInputsAndOutputs => "No Valid Inputs and Outputs"@,
        AlStatusCode::FatalSyncError => "Fatal Sync Error"@,
        AlStatusCode::NoSyncError => "No Sync Error"@,
        AlStatusCode::InvalidDcSyncConfiguration => "Invalid DC SYNC Configuration"@,
        AlStatusCode::InvalidDcLatchConfiguration => "Invalid DC Latch Configuration"@,
        AlStatusCode::PllError => "PLL Error"@,
        AlStatusCode::DcSyncIoError => "DC Sync IO Error"@,
        AlStatusCode::DcSyncTimeoutError => "DC Sync Timeout Error"@,
        AlStatusCode::DcInvalidSyncCycleTime => "DC Invalid Sync Cycle Time"@,
        AlStatusCode::DcSync0CycleTime => "DC Sync0 Cycle Time"@,
        AlStatusCode::DcSync1CycleTime => "DC Sync1 Cycle Time"@,
        AlStatusCode::MbxAoe => "Mailbox AoE"@,
        AlStatusCode::MbxEoe => "Mailbox EoE"@,
        AlStatusCode::MbxCoe => "Mailbox CoE"@,
        AlStatusCode::MbxFoe => "Mailbox FoE"@,
        AlStatusCode::MbxSoe => "Mailbox SoE"@,
        AlStatusCode::MbxVoe => "Mailbox VoE"@,
        AlStatusCode::EepromNoAccess => "EEPROM no access"@,
        AlStatusCode::EepromError => "EEPROM Error"@,
        AlStatusCode::SlaveRestartedLocally => "Slave restarted locally"@,
        AlStatusCode::DeviceIdentificationValueUpdated => "Device Identification value updated"@,
        AlStatusCode::ApplicationControllerAvailable => "Application controller available"@,
        AlStatusCode::Unknown(_) => "(unknown)"@,
    }
}

impl AlStatusCode {
    /// Decode a raw status code.
    pub fn from_u16(n: u16) -> (r: Self)
        ensures
            r == al_status_code_from_u16(n),
    {
        if n == 0x0000 {
            AlStatusCode::NoError
        } else if n == 0x0001 {
            AlStatusCode::UnspecifiedError
        } else if n == 0x0002 {
            AlStatusCode::NoMemory
        } else if n == 0x0003 {
            AlStatusCode::InvalidDeviceSetup
        } else if n == 0x0005 {
            AlStatusCode::CompatibilityReserved
        } else if n == 0x0011 {
            AlStatusCode::InvalidRequestedStateChange
        } else if n == 0x0012 {
            AlStatusCode::UnknownRequestedState
        } else if n == 0x0013 {
            AlStatusCode::BootstrapNotSupported
        } else if n == 0x0014 {
            AlStatusCode::NoValidFirmware
        } else if n == 0x0015 {
            AlStatusCode::InvalidMailboxConfiguration
        } else if n == 0x0016 {
            AlStatusCode::InvalidMailboxConfiguration2
        } else if n == 0x0017 {
            AlStatusCode::InvalidSyncManagerConfiguration
        } else if n == 0x0018 {
            AlStatusCode::NoValidInputsAvailable
        } else if n == 0x0019 {
            AlStatusCode::NoValidOutputs
        } else if n == 0x001A {
            AlStatusCode::SynchronizationError
        } else if n == 0x001B {
            AlStatusCode::SyncManagerWatchdog
        } else if n == 0x001C {
            AlStatusCode::InvalidSyncManagerTypes
        } else if n == 0x001D {
            AlStatusCode::InvalidOutputConfiguration
        } else if n == 0x001E {
            AlStatusCode::InvalidInputConfiguration
        } else if n == 0x001F {
            AlStatusCode::InvalidWatchdogConfiguration
        } else if n == 0x0020 {
            AlStatusCode::SlaveNeedsColdStart
        } else if n == 0x0021 {
            AlStatusCode::SlaveNeedsInit
        } else if n == 0x0022 {
            AlStatusCode::SlaveNeedsPreop
        } else if n == 0x0023 {
            AlStatusCode::SlaveNeedsSafeop
        } else if n == 0x0024 {
            AlStatusCode::InvalidInputMapping
        } else if n == 0x0025 {
            AlStatusCode::InvalidOutputMapping
        } else if n == 0x0026 {
            AlStatusCode::InconsistentSettings
        } else if n == 0x0027 {
            AlStatusCode::FreeRunNotSupported
        } else if n == 0x0028 {
            AlStatusCode::SyncModeNotSupported
        } else if n == 0x0029 {
            AlStatusCode::FreeRunNeeds3BufferMode
        } else if n == 0x002A {
            AlStatusCode::BackgroundWatchdog
        } else if n == 0x002B {
            AlStatusCode::NoValidInputsAndOutputs
        } else if n == 0x002C {
            AlStatusCode::FatalSyncError
        } else if n == 0x002D {
            AlStatusCode::NoSyncError
        } else if n == 0x0030 {
            AlStatusCode::InvalidDcSyncConfiguration
        } else if n == 0x0031 {
            AlStatusCode::InvalidDcLatchConfiguration
        } else if n == 0x0032 {
            AlStatusCode::PllError
        } else if n == 0x0033 {
            AlStatusCode::DcSyncIoError
        } else if n == 0x0034 {
            AlStatusCode::DcSyncTimeoutError
        } else if n == 0x0035 {
            AlStatusCode::DcInvalidSyncCycleTime
        } else if n == 0x0036 {
            AlStatusCode::DcSync0CycleTime
        } else if n == 0x0037 {
            AlStatusCode::DcSync1CycleTime
        } else if n == 0x0041 {
            AlStatusCode::MbxAoe
        } else if n == 0x0042 {
            AlStatusCode::MbxEoe
        } else if n == 0x0043 {
            AlStatusCode::MbxCoe
        } else if n == 0x0044 {
            AlStatusCode::MbxFoe
        } else if n == 0x0045 {
            AlStatusCode::MbxSoe
        } else if n == 0x004F {
            AlStatusCode::MbxVoe
        } else if n == 0x0050 {
            AlStatusCode::EepromNoAccess
        } else if n == 0x0051 {
            AlStatusCode::EepromError
        } else if n == 0x0060 {
            AlStatusCode::SlaveRestartedLocally
        } else if n == 0x0061 {
            AlStatusCode::DeviceIdentificationValueUpdated
        } else if n == 0x00F0 {
            AlStatusCode::ApplicationControllerAvailable
        } else {
            AlStatusCode::Unknown(n)
        }
    }

    /// The raw value of this status code.
    pub fn to_u16(&self) -> (r: u16)
        ensures
            r == al_status_code_to_u16(*self),
    {
        match self {
            AlStatusCode::NoError => 0x0000,
            AlStatusCode::UnspecifiedError => 0x0001,
            AlStatusCode::NoMemory => 0x0002,
            AlStatusCode::InvalidDeviceSetup => 0x0003,
            AlStatusCode::CompatibilityReserved => 0x0005,
            AlStatusCode::InvalidRequestedStateChange => 0x0011,
            AlStatusCode::UnknownRequestedState => 0x0012,
            AlStatusCode::BootstrapNotSupported => 0x0013,
            AlStatusCode::NoValidFirmware => 0x0014,
            AlStatusCode::InvalidMailboxConfiguration => 0x0015,
            AlStatusCode::InvalidMailboxConfiguration2 => 0x0016,
            AlStatusCode::InvalidSyncManagerConfiguration => 0x0017,
            AlStatusCode::NoValidInputsAvailable => 0x0018,
            AlStatusCode::NoValidOutputs => 0x0019,
            AlStatusCode::SynchronizationError => 0x001A,
            AlStatusCode::SyncManagerWatchdog => 0x001B,
            AlStatusCode::InvalidSyncManagerTypes => 0x001C,
            AlStatusCode::InvalidOutputConfiguration => 0x001D,
            AlStatusCode::InvalidInputConfiguration => 0x001E,
            AlStatusCode::InvalidWatchdogConfiguration => 0x001F,
            AlStatusCode::SlaveNeedsColdStart => 0x0020,
            AlStatusCode::SlaveNeedsInit => 0x0021,
            AlStatusCode::SlaveNeedsPreop => 0x0022,
            AlStatusCode::SlaveNeedsSafeop => 0x0023,
            AlStatusCode::InvalidInputMapping => 0x0024,
            AlStatusCode::InvalidOutputMapping => 0x0025,
            AlStatusCode::InconsistentSettings => 0x0026,
            AlStatusCode::FreeRunNotSupported => 0x0027,
            AlStatusCode::SyncModeNotSupported => 0x0028,
            AlStatusCode::FreeRunNeeds3BufferMode => 0x0029,
            AlStatusCode::BackgroundWatchdog => 0x002A,
            AlStatusCode::NoValidInputsAndOutputs => 0x002B,
            AlStatusCode::FatalSyncError => 0x002C,
            AlStatusCode::NoSyncError => 0x002D,
            AlStatusCode::InvalidDcSyncConfiguration => 0x0030,
            AlStatusCode::InvalidDcLatchConfiguration => 0x0031,
            AlStatusCode::PllError => 0x0032,
            AlStatusCode::DcSyncIoError => 0x0033,
            AlStatusCode::DcSyncTimeoutError => 0x0034,
            AlStatusCode::DcInvalidSyncCycleTime => 0x0035,
            AlStatusCode::DcSync0CycleTime => 0x0036,
            AlStatusCode::DcSync1CycleTime => 0x0037,
            AlStatusCode::MbxAoe => 0x0041,
            AlStatusCode::MbxEoe => 0x0042,
            AlStatusCode::MbxCoe => 0x0043,
            AlStatusCode::MbxFoe => 0x0044,
            AlStatusCode::MbxSoe => 0x0045,
            AlStatusCode::MbxVoe => 0x004F,
            AlStatusCode::EepromNoAccess => 0x0050,
            AlStatusCode::EepromError => 0x0051,
            AlStatusCode::SlaveRestartedLocally => 0x0060,
            AlStatusCode::DeviceIdentificationValueUpdated => 0x0061,
            AlStatusCode::ApplicationControllerAvailable => 0x00F0,
            AlStatusCode::Unknown(n) => *n,
        }
    }

    /// A human readable description of this status code, without its number.
    pub fn description(&self) -> (r: &'static str)
        ensures
            r@ == al_status_code_text(*self),
    {
        match self {
            AlStatusCode::NoError => "No error",
            AlStatusCode::UnspecifiedError => "Unspecified error",
            AlStatusCode::NoMemory => "No Memory",
            AlStatusCode::InvalidDeviceSetup => "Invalid Device Setup",
            AlStatusCode::CompatibilityReserved => "Reserved due to compatibility reasons",
            AlStatusCode::InvalidRequestedStateChange => "Invalid requested state change",
            AlStatusCode::UnknownRequestedState => "Unknown requested state",
            AlStatusCode::BootstrapNotSupported => "Bootstrap not supported",
            AlStatusCode::NoValidFirmware => "No valid firmware",
            AlStatusCode::InvalidMailboxConfiguration => "Invalid mailbox configuration",
            AlStatusCode::InvalidMailboxConfiguration2 => "Invalid mailbox configuration",
            AlStatusCode::InvalidSyncManagerConfiguration => "Invalid sync manager configuration",
            AlStatusCode::NoValidInputsAvailable => "No valid inputs available",
            AlStatusCode::NoValidOutputs => "No valid outputs",
            AlStatusCode::SynchronizationError => "Synchronization error",
            AlStatusCode::SyncManagerWatchdog => "Sync manager watchdog",
            AlStatusCode::InvalidSyncManagerTypes => "Invalid Sync Manager Types",
            AlStatusCode::InvalidOutputConfiguration => "Invalid Output Configuration",
            AlStatusCode::InvalidInputConfiguration => "Invalid Input Configuration",
            AlStatusCode::InvalidWatchdogConfiguration => "Invalid Watchdog Configuration",
            AlStatusCode::SlaveNeedsColdStart => "Slave needs cold start",
            AlStatusCode::SlaveNeedsInit => "Slave needs INIT",
            AlStatusCode::SlaveNeedsPreop => "Slave needs PREOP",
            AlStatusCode::SlaveNeedsSafeop => "Slave needs SAFEOP",
            AlStatusCode::InvalidInputMapping => "Invalid Input Mapping",
            AlStatusCode::InvalidOutputMapping => "Invalid Output Mapping",
            AlStatusCode::InconsistentSettings => "Inconsistent Settings",
            AlStatusCode::FreeRunNotSupported => "FreeRun not supported",
            AlStatusCode::SyncModeNotSupported => "SyncMode not supported",
            AlStatusCode::FreeRunNeeds3BufferMode => "FreeRun needs 3 Buffer Mode",
            AlStatusCode::BackgroundWatchdog => "Background Watchdog",
            AlStatusCode::NoValidInputsAndOutputs => "No Valid Inputs and Outputs",
            AlStatusCode::FatalSyncError => "Fatal Sync Error",
            AlStatusCode::NoSyncError => "No Sync Error",
            AlStatusCode::InvalidDcSyncConfiguration => "Invalid DC SYNC Configuration",
            AlStatusCode::InvalidDcLatchConfiguration => "Invalid DC Latch Configuration",
            AlStatusCode::PllError => "PLL Error",
            AlStatusCode::DcSyncIoError => "DC Sync IO Error",
            AlStatusCode::DcSyncTimeoutError => "DC Sync Timeout Error",
            AlStatusCode::DcInvalidSyncCycleTime => "DC Invalid Sync Cycle Time",
            AlStatusCode::DcSync0CycleTime => "DC Sync0 Cycle Time",
            AlStatusCode::DcSync1CycleTime => "DC Sync1 Cycle Time",
            AlStatusCode::MbxAoe => "Mailbox AoE",
            AlStatusCode::MbxEoe => "Mailbox EoE",
            AlStatusCode::MbxCoe => "Mailbox CoE",
            AlStatusCode::MbxFoe => "Mailbox FoE",
            AlStatusCode::MbxSoe => "Mailbox SoE",
            AlStatusCode::MbxVoe => "Mailbox VoE",
            AlStatusCode::EepromNoAccess => "EEPROM no access",
            AlStatusCode::EepromError => "EEPROM Error",
            AlStatusCode::SlaveRestartedLocally => "Slave restarted locally",
            AlStatusCode::DeviceIdentificationValueUpdated => "Device Identification value updated",
            AlStatusCode::ApplicationControllerAvailable => "Application controller available",
            AlStatusCode::Unknown(_) => "(unknown)",
        }
    }

    /// The code's number as `0x` and four hexadecimal digits, then `: ` and its description.
    pub fn message(&self) -> (r: String)
        ensures
            r@ == hex4(al_status_code_to_u16(*self)) + ": "@ + al_status_code_text(*self),
    {
        let mut s = String::new();
        push_hex4(&mut s, self.to_u16());
        s.append(": ");
        s.append(self.description());
        s
    }

    /// Read a status code from a two byte little-endian slice.
    pub fn try_from_slice(slice: &[u8]) -> (r: Self)
        requires
            slice@.len() == 2,
        ensures
            r == al_status_code_from_u16(le_u16_at(slice@, 0)),
    {
        Self::from_u16(read_u16(slice, 0))
    }
}

/// Decoding the raw value of a status code gives it back, unless it is an unknown code that
/// holds the value of a named one.
pub proof fn lemma_al_status_code_roundtrip(c: AlStatusCode)
    requires
        c matches AlStatusCode::Unknown(n) ==> al_status_code_from_u16(n) == c,
    ensures
        al_status_code_from_u16(al_status_code_to_u16(c)) == c,
{
}

/// Every raw value survives decoding and encoding.
pub proof fn lemma_al_status_code_value_roundtrip(n: u16)
    ensures
        al_status_code_to_u16(al_status_code_from_u16(n)) == n,
{
}

} // verus!
