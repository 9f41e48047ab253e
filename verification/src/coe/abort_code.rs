//! SDO abort codes.
use vstd::prelude::*;

verus! {

/// Defined in ETG1000.6 Table 41 – SDO Abort Codes
#[derive(PartialEq, Eq, Structural, Debug, Copy, Clone)]
pub enum AbortCode {
    /// Toggle bit not changed
    ToggleBit,
    /// SDO protocol timeout
    SdoTimeout,
    /// Client/Server command specifier not valid or unknown
    InvalidCommand,
    /// Out of memory
    OutOfMemory,
    /// Unsupported access to an object
    UnsupportedAccess,
    /// Attempt to read to a write only object
    WriteOnlyRead,
    /// Attempt to write to a read only object
    ReadOnlyWrite,
    /// Subindex cannot be written, SI0 must be 0 for write access
    IndexOnly,
    /// SDO Complete access not supported for objects of variable length such as ENUM object types
    NoCompleteAccess,
    /// Object length exceeds mailbox size
    ObjectTooLarge,
    /// Object mapped to RxPDO, SDO Download blocked
    DownloadBlocked,
    /// The object does not exist in the object directory
    NotFound,
    /// The object can not be mapped into the PDO
    PdoMappingFailed,
    /// The number and length of the objects to be mapped would exceed the PDO length
    PdoTooSmall,
    /// General parameter incompatibility reason
    Incompatible,
    /// General internal incompatibility in the device
    Internal,
    /// Access failed due to a hardware error
    HardwareFailure,
    /// Data type does not match, length of service parameter does not match
    DataLengthMismatch,
    /// Data type does not match, length of service parameter too high
    DataTooLong,
    /// Data type does not match, length of service parameter too low
    DataTooShort,
    /// Subindex does not exist
    SubIndexNotFound,
    /// Value range of parameter exceeded (only for write access)
    ValueOutOfRange,
    /// Value of parameter written too high
    ValueTooLarge,
    /// Value of parameter written too low
    ValueTooSmall,
    /// Maximum value is less than minimum value
    MaxMin,
    /// General error
    General,
    /// Data cannot be transferred or stored to the application
    ///
    /// NOTE: This is the general Abort Code in case no further detail on the reason can determined.
    /// It is recommended to use one of the more detailed Abort Codes
    /// ([`AbortCode::TransferFailedLocal`], [`AbortCode::InvalidState`])
    TransferFailed,
    /// Data cannot be transferred or stored to the application because of local control
    ///
    /// NOTE: “local control” means an application specific reason. It does not mean the
    /// ESM-specific control
    TransferFailedLocal,
    ///  Data cannot be transferred or stored to the application because of the present device state
    ///
    /// NOTE: “device state” means the ESM state
    InvalidState,
    /// Object dictionary dynamic generation fails or no object dictionary is present
    NoObjectDictionary,
}

/// The abort code a number names, if any.
pub open spec fn abort_code_from_u32(n: u32) -> Option<AbortCode> {
    if n == 0x05030000 {
        Some(AbortCode::ToggleBit)
    } else if n == 0x05040000 {
        Some(AbortCode::SdoTimeout)
    } else if n == 0x05040001 {
        Some(AbortCode::InvalidCommand)
    } else if n == 0x05040005 {
        Some(AbortCode::OutOfMemory)
    } else if n == 0x06010000 {
        Some(AbortCode::UnsupportedAccess)
    } else if n == 0x06010001 {
        Some(AbortCode::WriteOnlyRead)
    } else if n == 0x06010002 {
        Some(AbortCode::ReadOnlyWrite)
    } else if n == 0x06010003 {
        Some(AbortCode::IndexOnly)
    } else if n == 0x06010004 {
        Some(AbortCode::NoCompleteAccess)
    } else if n == 0x06010005 {
        Some(AbortCode::ObjectTooLarge)
    } else if n == 0x06010006 {
        Some(AbortCode::DownloadBlocked)
    } else if n == 0x06020000 {
        Some(AbortCode::NotFound)
    } else if n == 0x06040041 {
        Some(AbortCode::PdoMappingFailed)
    } else if n == 0x06040042 {
        Some(AbortCode::PdoTooSmall)
    } else if n == 0x06040043 {
        Some(AbortCode::Incompatible)
    } else if n == 0x06040047 {
        Some(AbortCode::Internal)
    } else if n == 0x06060000 {
        Some(AbortCode::HardwareFailure)
    } else if n == 0x06070010 {
        Some(AbortCode::DataLengthMismatch)
    } else if n == 0x06070012 {
        Some(AbortCode::DataTooLong)
    } else if n == 0x06070013 {
        Some(AbortCode::DataTooShort)
    } else if n == 0x06090011 {
        Some(AbortCode::SubIndexNotFound)
    } else if n == 0x06090030 {
        Some(AbortCode::ValueOutOfRange)
    } else if n == 0x06090031 {
        Some(AbortCode::ValueTooLarge)
    } else if n == 0x06090032 {
        Some(AbortCode::ValueTooSmall)
    } else if n == 0x06090036 {
        Some(AbortCode::MaxMin)
    } else if n == 0x08000000 {
        Some(AbortCode::General)
    } else if n == 0x08000020 {
        Some(AbortCode::TransferFailed)
    } else if n == 0x08000021 {
        Some(AbortCode::TransferFailedLocal)
    } else if n == 0x08000022 {
        Some(AbortCode::InvalidState)
    } else if n == 0x08000023 {
        Some(AbortCode::NoObjectDictionary)
    } else {
        None
    }
}

/// The number of an abort code.
pub open spec fn abort_code_to_u32(c: AbortCode) -> u32 {
    match c {
        AbortCode::ToggleBit => 0x05030000,
        AbortCode::SdoTimeout => 0x05040000,
        AbortCode::InvalidCommand => 0x05040001,
        AbortCode::OutOfMemory => 0x05040005,
        AbortCode::UnsupportedAccess => 0x06010000,
        AbortCode::WriteOnlyRead => 0x06010001,
        AbortCode::ReadOnlyWrite => 0x06010002,
        AbortCode::IndexOnly => 0x06010003,
        AbortCode::NoCompleteAccess => 0x06010004,
        AbortCode::ObjectTooLarge => 0x06010005,
        AbortCode::DownloadBlocked => 0x06010006,
        AbortCode::NotFound => 0x06020000,
        AbortCode::PdoMappingFailed => 0x06040041,
        AbortCode::PdoTooSmall => 0x06040042,
        AbortCode::Incompatible => 0x06040043,
        AbortCode::Internal => 0x06040047,
        AbortCode::HardwareFailure => 0x06060000,
        AbortCode::DataLengthMismatch => 0x06070010,
        AbortCode::DataTooLong => 0x06070012,
        AbortCode::DataTooShort => 0x06070013,
        AbortCode::SubIndexNotFound => 0x06090011,
        AbortCode::ValueOutOfRange => 0x06090030,
        AbortCode::ValueTooLarge => 0x06090031,
        AbortCode::ValueTooSmall => 0x06090032,
        AbortCode::MaxMin => 0x06090036,
        AbortCode::General => 0x08000000,
        AbortCode::TransferFailed => 0x08000020,
        AbortCode::TransferFailedLocal => 0x08000021,
        AbortCode::InvalidState => 0x08000022,
        AbortCode::NoObjectDictionary => 0x08000023,
    }
}

/// The description of an abort code, led by its number.
pub open spec fn abort_code_text(c: AbortCode) -> Seq<char> {
    match c {
        AbortCode::ToggleBit => "0x05030000: Toggle bit not changed"@,
        AbortCode::SdoTimeout => "0x05040000: SDO protocol timeout"@,
        AbortCode::InvalidCommand => "0x05040001: Client/Server command specifier not valid or unknown"@,
        AbortCode::OutOfMemory => "0x05040005: Out of memory"@,
        AbortCode::UnsupportedAccess => "0x06010000: Unsupported access to an object"@,
        AbortCode::WriteOnlyRead => "0x06010001: Attempt to read to a write only object"@,
        AbortCode::ReadOnlyWrite => "0x06010002: Attempt to write to a read only object"@,
        AbortCode::IndexOnly => "0x06010003: Subindex cannot be written, SI0 must be 0 for write access"@,
        AbortCode::NoCompleteAccess => "0x06010004: SDO Complete access not supported for objects of variable length such as ENUM object types"@,
        AbortCode::ObjectTooLarge => "0x06010005: Object length exceeds mailbox size"@,
        AbortCode::DownloadBlocked => "0x06010006: Object mapped to RxPDO, SDO Download blocked"@,
        AbortCode::NotFound => "0x06020000: The object does not exist in the object directory"@,
        AbortCode::PdoMappingFailed => "0x06040041: The object can not be mapped into the PDO"@,
        AbortCode::PdoTooSmall => "0x06040042: The number and length of the objects to be mapped would exceed the PDO length"@,
        AbortCode::Incompatible => "0x06040043: General parameter incompatibility reason"@,
        AbortCode::Internal => "0x06040047: General internal incompatibility in the device"@,
        AbortCode::HardwareFailure => "0x06060000: Access failed due to a hardware error"@,
        AbortCode::DataLengthMismatch => "0x06070010: Data type does not match, length of service parameter does not match"@,
        AbortCode::DataTooLong => "0x06070012: Data type does not match, length of service parameter too high"@,
        AbortCode::DataTooShort => "0x06070013: Data type does not match, length of service parameter too low"@,
        AbortCode::SubIndexNotFound => "0x06090011: Subindex does not exist"@,
        AbortCode::ValueOutOfRange => "0x06090030: Value range of parameter exceeded (only for write access)"@,
        AbortCode::ValueTooLarge => "0x06090031: Value of parameter written too high"@,
        AbortCode::ValueTooSmall => "0x06090032: Value of parameter written too low"@,
        AbortCode::MaxMin => "0x06090036: Maximum value is less than minimum value"@,
        AbortCode::General => "0x08000000: General error"@,
        AbortCode::TransferFailed => "0x08000020: Data cannot be transferred or stored to the application"@,
        AbortCode::TransferFailedLocal => "0x08000021: Data cannot be transferred or stored to the application because of local control"@,
        AbortCode::InvalidState => "0x08000022:  Data cannot be transferred or stored to the application because of the present device state"@,
        AbortCode::NoObjectDictionary => "0x08000023: Object dictionary dynamic generation fails or no object dictionary is present"@,
    }
}

impl AbortCode {
    /// Decode an abort code from its number.
    pub fn try_from_u32(n: u32) -> (r: Option<Self>)
        ensures
            r == abort_code_from_u32(n),
    {
        if n == 0x05030000 {
            Some(AbortCode::ToggleBit)
        } else if n == 0x05040000 {
            Some(AbortCode::SdoTimeout)
        } else if n == 0x05040001 {
            Some(AbortCode::InvalidCommand)
        } else if n == 0x05040005 {
            Some(AbortCode::OutOfMemory)
        } else if n == 0x06010000 {
            Some(AbortCode::UnsupportedAccess)
        } else if n == 0x06010001 {
            Some(AbortCode::WriteOnlyRead)
        } else if n == 0x06010002 {
            Some(AbortCode::ReadOnlyWrite)
        } else if n == 0x06010003 {
            Some(AbortCode::IndexOnly)
        } else if n == 0x06010004 {
            Some(AbortCode::NoCompleteAccess)
        } else if n == 0x06010005 {
            Some(AbortCode::ObjectTooLarge)
        } else if n == 0x06010006 {
            Some(AbortCode::DownloadBlocked)
        } else if n == 0x06020000 {
            Some(AbortCode::NotFound)
        } else if n == 0x06040041 {
            Some(AbortCode::PdoMappingFailed)
        } else if n == 0x06040042 {
            Some(AbortCode::PdoTooSmall)
        } else if n == 0x06040043 {
            Some(AbortCode::Incompatible)
        } else if n == 0x06040047 {
            Some(AbortCode::Internal)
        } else if n == 0x06060000 {
            Some(AbortCode::HardwareFailure)
        } else if n == 0x06070010 {
            Some(AbortCode::DataLengthMismatch)
        } else if n == 0x06070012 {
            Some(AbortCode::DataTooLong)
        } else if n == 0x06070013 {
            Some(AbortCode::DataTooShort)
        } else if n == 0x06090011 {
            Some(AbortCode::SubIndexNotFound)
        } else if n == 0x06090030 {
            Some(AbortCode::ValueOutOfRange)
        } else if n == 0x06090031 {
            Some(AbortCode::ValueTooLarge)
        } else if n == 0x06090032 {
            Some(AbortCode::ValueTooSmall)
        } else if n == 0x06090036 {
            Some(AbortCode::MaxMin)
        } else if n == 0x08000000 {
            Some(AbortCode::General)
        } else if n == 0x08000020 {
            Some(AbortCode::TransferFailed)
        } else if n == 0x08000021 {
            Some(AbortCode::TransferFailedLocal)
        } else if n == 0x08000022 {
            Some(AbortCode::InvalidState)
        } else if n == 0x08000023 {
            Some(AbortCode::NoObjectDictionary)
        } else {
            None
        }
    }

    /// The number of this abort code.
    pub fn to_u32(&self) -> (r: u32)
        ensures
            r == abort_code_to_u32(*self),
            abort_code_from_u32(r) == Some(*self),
    {
        match self {
            AbortCode::ToggleBit => 0x05030000,
            AbortCode::SdoTimeout => 0x05040000,
            AbortCode::InvalidCommand => 0x05040001,
            AbortCode::OutOfMemory => 0x05040005,
            AbortCode::UnsupportedAccess => 0x06010000,
            AbortCode::WriteOnlyRead => 0x06010001,
            AbortCode::ReadOnlyWrite => 0x06010002,
            AbortCode::IndexOnly => 0x06010003,
            AbortCode::NoCompleteAccess => 0x06010004,
            AbortCode::ObjectTooLarge => 0x06010005,
            AbortCode::DownloadBlocked => 0x06010006,
            AbortCode::NotFound => 0x06020000,
            AbortCode::PdoMappingFailed => 0x06040041,
            AbortCode::PdoTooSmall => 0x06040042,
            AbortCode::Incompatible => 0x06040043,
            AbortCode::Internal => 0x06040047,
            AbortCode::HardwareFailure => 0x06060000,
            AbortCode::DataLengthMismatch => 0x06070010,
            AbortCode::DataTooLong => 0x06070012,
            AbortCode::DataTooShort => 0x06070013,
            AbortCode::SubIndexNotFound => 0x06090011,
            AbortCode::ValueOutOfRange => 0x06090030,
            AbortCode::ValueTooLarge => 0x06090031,
            AbortCode::ValueTooSmall => 0x06090032,
            AbortCode::MaxMin => 0x06090036,
            AbortCode::General => 0x08000000,
            AbortCode::TransferFailed => 0x08000020,
            AbortCode::TransferFailedLocal => 0x08000021,
            AbortCode::InvalidState => 0x08000022,
            AbortCode::NoObjectDictionary => 0x08000023,
        }
    }

    /// A human readable description of this abort code, led by its number.
    pub fn description(&self) -> (r: &'static str)
        ensures
            r@ == abort_code_text(*self),
    {
        match self {
            AbortCode::ToggleBit => "0x05030000: Toggle bit not changed",
            AbortCode::SdoTimeout => "0x05040000: SDO protocol timeout",
            AbortCode::InvalidCommand => "0x05040001: Client/Server command specifier not valid or unknown",
            AbortCode::OutOfMemory => "0x05040005: Out of memory",
            AbortCode::UnsupportedAccess => "0x06010000: Unsupported access to an object",
            AbortCode::WriteOnlyRead => "0x06010001: Attempt to read to a write only object",
            AbortCode::ReadOnlyWrite => "0x06010002: Attempt to write to a read only object",
            AbortCode::IndexOnly => "0x06010003: Subindex cannot be written, SI0 must be 0 for write access",
            AbortCode::NoCompleteAccess => "0x06010004: SDO Complete access not supported for objects of variable length such as ENUM object types",
            AbortCode::ObjectTooLarge => "0x06010005: Object length exceeds mailbox size",
            AbortCode::DownloadBlocked => "0x06010006: Object mapped to RxPDO, SDO Download blocked",
            AbortCode::NotFound => "0x06020000: The object does not exist in the object directory",
            AbortCode::PdoMappingFailed => "0x06040041: The object can not be mapped into the PDO",
            AbortCode::PdoTooSmall => "0x06040042: The number and length of the objects to be mapped would exceed the PDO length",
            AbortCode::Incompatible => "0x06040043: General parameter incompatibility reason",
            AbortCode::Internal => "0x06040047: General internal incompatibility in the device",
            AbortCode::HardwareFailure => "0x06060000: Access failed due to a hardware error",
            AbortCode::DataLengthMismatch => "0x06070010: Data type does not match, length of service parameter does not match",
            AbortCode::DataTooLong => "0x06070012: Data type does not match, length of service parameter too high",
            AbortCode::DataTooShort => "0x06070013: Data type does not match, length of service parameter too low",
            AbortCode::SubIndexNotFound => "0x06090011: Subindex does not exist",
            AbortCode::ValueOutOfRange => "0x06090030: Value range of parameter exceeded (only for write access)",
            AbortCode::ValueTooLarge => "0x06090031: Value of parameter written too high",
            AbortCode::ValueTooSmall => "0x06090032: Value of parameter written too low",
            AbortCode::MaxMin => "0x06090036: Maximum value is less than minimum value",
            AbortCode::General => "0x08000000: General error",
            AbortCode::TransferFailed => "0x08000020: Data cannot be transferred or stored to the application",
            AbortCode::TransferFailedLocal => "0x08000021: Data cannot be transferred or stored to the application because of local control",
            AbortCode::InvalidState => "0x08000022:  Data cannot be transferred or stored to the application because of the present device state",
            AbortCode::NoObjectDictionary => "0x08000023: Object dictionary dynamic generation fails or no object dictionary is present",
        }
    }
}

} // verus!
