//! SubDevice Information Interface (SII) types.
use vstd::prelude::*;
use crate::coe::flag;
use crate::sync_manager_channel::{spec_control_from_byte, Control, Direction, OperationMode};
use vstd::slice::slice_subrange;
use crate::wire::{bit_set, lemma_pack_flags, pack_flags, pack_flags_exec, le_u16_at, lemma_u16_roundtrip, read_u16, u16_le_bytes, u16_to_le, WireError};

verus! {

/// Owner of the EEPROM.
#[derive(Debug, Copy, Clone, PartialEq, Eq, Structural, Default)]
pub enum SiiOwner {
    /// EEPROM access rights are assigned to PDI during state change from Init to PreOp, Init to
    /// Boot and while in Boot.
    #[default]
    Master,
    /// EEPROM access rights are assigned to PDI in all states except Init.
    Pdi,
}

/// EEPROM access rights.
#[derive(Debug, Copy, Clone, PartialEq, Eq, Structural, Default)]
pub enum SiiAccess {
    /// Read only.
    #[default]
    ReadOnly,
    /// Read and write.
    ReadWrite,
}

/// How many bytes one EEPROM read returns.
#[derive(Debug, Copy, Clone, PartialEq, Eq, Structural, Default)]
pub enum SiiReadSize {
    /// Read 4 octets at a time.
    #[default]
    Octets4,
    /// Read 8 octets at a time.
    Octets8,
}

impl SiiReadSize {
    /// The number of bytes one read returns.
    pub fn chunk_len(&self) -> (r: u16)
        ensures
            r == (if *self is Octets4 {
                4u16
            } else {
                8u16
            }),
    {
        match self {
            SiiReadSize::Octets4 => 4,
            SiiReadSize::Octets8 => 8,
        }
    }
}

/// EEPROM address width.
#[derive(Debug, Copy, Clone, PartialEq, Eq, Structural, Default)]
pub enum SiiAddressSize {
    /// One byte addresses.
    #[default]
    U8,
    /// Two byte addresses.
    U16,
}

/// Packed length of [`SiiControl`] in bytes.
pub const SII_CONTROL_LEN: usize = 2;

/// EEPROM control/status register, defined in ETG1000.4 6.4.3.
///
/// The first byte holds the access right (bit 0), SII emulation (bit 5), read size (bit 6) and
/// address size (bit 7). The second byte holds, from bit 0 up, the read, write and reload
/// commands, the checksum, device info and command error flags, the write error flag and the busy
/// flag.
#[derive(Debug, Copy, Clone, PartialEq, Eq, Structural, Default)]
pub struct SiiControl {
    /// Access right.
    pub access: SiiAccess,
    /// EEPROM emulation by the PDI.
    pub emulate_sii: bool,
    /// Read size.
    pub read_size: SiiReadSize,
    /// Address size.
    pub address_type: SiiAddressSize,
    /// Read command.
    pub read: bool,
    /// Write command.
    pub write: bool,
    /// Reload command.
    pub reload: bool,
    /// Checksum error.
    pub checksum_error: bool,
    /// Device info error.
    pub device_info_error: bool,
    /// Command error.
    pub command_error: bool,
    /// Write error.
    pub write_error: bool,
    /// Busy.
    pub busy: bool,
}

/// The control register the two bytes `b0`, `b1` hold.
pub open spec fn spec_sii_control_from_bytes(b0: u8, b1: u8) -> SiiControl {
    SiiControl {
        access: if bit_set(b0, 1) {
            SiiAccess::ReadWrite
        } else {
            SiiAccess::ReadOnly
        },
        emulate_sii: bit_set(b0, 32),
        read_size: if bit_set(b0, 64) {
            SiiReadSize::Octets8
        } else {
            SiiReadSize::Octets4
        },
        address_type: if bit_set(b0, 128) {
            SiiAddressSize::U16
        } else {
            SiiAddressSize::U8
        },
        read: bit_set(b1, 1),
        write: bit_set(b1, 2),
        reload: bit_set(b1, 4),
        checksum_error: bit_set(b1, 8),
        device_info_error: bit_set(b1, 16),
        command_error: bit_set(b1, 32),
        write_error: bit_set(b1, 64),
        busy: bit_set(b1, 128),
    }
}

/// The control register the first two bytes of `s` hold.
pub open spec fn spec_sii_control_unpack(s: Seq<u8>) -> Result<SiiControl, WireError> {
    if s.len() < SII_CONTROL_LEN {
        Err(WireError::ReadBufferTooShort)
    } else {
        Ok(spec_sii_control_from_bytes(s[0], s[1]))
    }
}

impl SiiControl {
    /// The first byte of the register.
    pub open spec fn spec_byte0(self) -> u8 {
        pack_flags(
            self.access is ReadWrite,
            false,
            false,
            false,
            false,
            self.emulate_sii,
            self.read_size is Octets8,
            self.address_type is U16,
        )
    }

    /// The second byte of the register.
    pub open spec fn spec_byte1(self) -> u8 {
        pack_flags(
            self.read,
            self.write,
            self.reload,
            self.checksum_error,
            self.device_info_error,
            self.command_error,
            self.write_error,
            self.busy,
        )
    }

    /// The two bytes this register packs into.
    pub open spec fn spec_pack(self) -> Seq<u8> {
        seq![self.spec_byte0(), self.spec_byte1()]
    }

    /// A read command.
    pub open spec fn spec_read() -> SiiControl {
        SiiControl {
            access: SiiAccess::ReadOnly,
            emulate_sii: false,
            read_size: SiiReadSize::Octets4,
            address_type: SiiAddressSize::U8,
            read: true,
            write: false,
            reload: false,
            checksum_error: false,
            device_info_error: false,
            command_error: false,
            write_error: false,
            busy: false,
        }
    }

    /// A write command, with read/write access.
    pub open spec fn spec_write() -> SiiControl {
        SiiControl {
            access: SiiAccess::ReadWrite,
            emulate_sii: false,
            read_size: SiiReadSize::Octets4,
            address_type: SiiAddressSize::U8,
            read: false,
            write: true,
            reload: false,
            checksum_error: false,
            device_info_error: false,
            command_error: false,
            write_error: false,
            busy: false,
        }
    }

    /// Whether any of the checksum, device info or write error flags is set.
    pub fn has_error(&self) -> (r: bool)
        ensures
            r == (self.checksum_error || self.device_info_error || self.write_error),
    {
        self.checksum_error || self.device_info_error || self.write_error
    }

    /// The same register with all error flags cleared.
    pub fn error_reset(self) -> (r: Self)
        ensures
            r == (SiiControl {
                checksum_error: false,
                device_info_error: false,
                command_error: false,
                write_error: false,
                ..self
            }),
    {
        Self {
            checksum_error: false,
            device_info_error: false,
            command_error: false,
            write_error: false,
            ..self
        }
    }

    /// A read command.
    pub fn read() -> (r: Self)
        ensures
            r == SiiControl::spec_read(),
    {
        SiiControl {
            access: SiiAccess::ReadOnly,
            emulate_sii: false,
            read_size: SiiReadSize::Octets4,
            address_type: SiiAddressSize::U8,
            read: true,
            write: false,
            reload: false,
            checksum_error: false,
            device_info_error: false,
            command_error: false,
            write_error: false,
            busy: false,
        }
    }

    /// A write command, with read/write access.
    pub fn write() -> (r: Self)
        ensures
            r == SiiControl::spec_write(),
    {
        SiiControl {
            access: SiiAccess::ReadWrite,
            emulate_sii: false,
            read_size: SiiReadSize::Octets4,
            address_type: SiiAddressSize::U8,
            read: false,
            write: true,
            reload: false,
            checksum_error: false,
            device_info_error: false,
            command_error: false,
            write_error: false,
            busy: false,
        }
    }

    /// Pack into the two bytes of the register.
    pub fn pack(&self) -> (r: [u8; 2])
        ensures
            r@ == self.spec_pack(),
    {
        let b0 = pack_flags_exec(
            self.access == SiiAccess::ReadWrite,
            false,
            false,
            false,
            false,
            self.emulate_sii,
            self.read_size == SiiReadSize::Octets8,
            self.address_type == SiiAddressSize::U16,
        );
        let b1 = pack_flags_exec(
            self.read,
            self.write,
            self.reload,
            self.checksum_error,
            self.device_info_error,
            self.command_error,
            self.write_error,
            self.busy,
        );
        let r = [b0, b1];
        assert(r@ =~= self.spec_pack());
        r
    }

    /// Unpack from the first two bytes of `buf`.
    pub fn unpack_from_slice(buf: &[u8]) -> (r: Result<Self, WireError>)
        ensures
            r == spec_sii_control_unpack(buf@),
    {
        if buf.len() < SII_CONTROL_LEN {
            return Err(WireError::ReadBufferTooShort);
        }
        let b0 = buf[0];
        let b1 = buf[1];
        Ok(
            SiiControl {
                access: if (b0 / 1) % 2 == 1 {
                    SiiAccess::ReadWrite
                } else {
                    SiiAccess::ReadOnly
                },
                emulate_sii: (b0 / 32) % 2 == 1,
                read_size: if (b0 / 64) % 2 == 1 {
                    SiiReadSize::Octets8
                } else {
                    SiiReadSize::Octets4
                },
                address_type: if (b0 / 128) % 2 == 1 {
                    SiiAddressSize::U16
                } else {
                    SiiAddressSize::U8
                },
                read: (b1 / 1) % 2 == 1,
                write: (b1 / 2) % 2 == 1,
                reload: (b1 / 4) % 2 == 1,
                checksum_error: (b1 / 8) % 2 == 1,
                device_info_error: (b1 / 16) % 2 == 1,
                command_error: (b1 / 32) % 2 == 1,
                write_error: (b1 / 64) % 2 == 1,
                busy: (b1 / 128) % 2 == 1,
            },
        )
    }
}

/// Unpacking a packed control register gives it back.
pub proof fn lemma_sii_control_roundtrip(c: SiiControl, rest: Seq<u8>)
    ensures
        spec_sii_control_unpack(c.spec_pack() + rest) == Ok::<SiiControl, WireError>(c),
{
    let s = c.spec_pack() + rest;
    assert(s[0] == c.spec_byte0() && s[1] == c.spec_byte1());
    lemma_pack_flags(
        c.access is ReadWrite,
        false,
        false,
        false,
        false,
        c.emulate_sii,
        c.read_size is Octets8,
        c.address_type is U16,
    );
    lemma_pack_flags(
        c.read,
        c.write,
        c.reload,
        c.checksum_error,
        c.device_info_error,
        c.command_error,
        c.write_error,
        c.busy,
    );
}

/// Packed length of [`SiiRequest`] in bytes.
pub const SII_REQUEST_LEN: usize = 6;

/// An EEPROM request: the control register, a word address and two padding bytes for the unused
/// high address word.
#[derive(Debug, Copy, Clone, PartialEq, Eq, Structural)]
pub struct SiiRequest {
    /// Control register.
    pub control: SiiControl,
    /// Word address.
    pub address: u16,
}

/// The request the first six bytes of `s` hold.
pub open spec fn spec_sii_request_unpack(s: Seq<u8>) -> Result<SiiRequest, WireError> {
    if s.len() < SII_REQUEST_LEN {
        Err(WireError::ReadBufferTooShort)
    } else {
        Ok(
            SiiRequest {
                control: spec_sii_control_from_bytes(s[0], s[1]),
                address: le_u16_at(s, 2),
            },
        )
    }
}

impl SiiRequest {
    /// The six bytes this request packs into.
    pub open spec fn spec_pack(self) -> Seq<u8> {
        self.control.spec_pack() + u16_le_bytes(self.address) + seq![0u8, 0u8]
    }

    /// A read request for the given word address.
    pub fn read(address: u16) -> (r: Self)
        ensures
            r == (SiiRequest { control: SiiControl::spec_read(), address }),
    {
        SiiRequest { control: SiiControl::read(), address }
    }

    /// A write request for the given word address.
    pub fn write(address: u16) -> (r: Self)
        ensures
            r == (SiiRequest { control: SiiControl::spec_write(), address }),
    {
        SiiRequest { control: SiiControl::write(), address }
    }

    /// Pack into the six bytes sent on the wire.
    pub fn pack(&self) -> (r: [u8; 6])
        ensures
            r@ == self.spec_pack(),
    {
        let c = self.control.pack();
        let a = u16_to_le(self.address);
        let r = [c[0], c[1], a[0], a[1], 0u8, 0u8];
        assert(r@ =~= self.spec_pack());
        r
    }

    /// Unpack from the first six bytes of `buf`.
    pub fn unpack_from_slice(buf: &[u8]) -> (r: Result<Self, WireError>)
        ensures
            r == spec_sii_request_unpack(buf@),
    {
        if buf.len() < SII_REQUEST_LEN {
            return Err(WireError::ReadBufferTooShort);
        }
        let control = match SiiControl::unpack_from_slice(buf) {
            Ok(c) => c,
            Err(e) => {
                return Err(e);
            },
        };
        Ok(SiiRequest { control, address: read_u16(buf, 2) })
    }
}

/// Unpacking a packed request gives it back.
pub proof fn lemma_sii_request_roundtrip(q: SiiRequest, rest: Seq<u8>)
    ensures
        spec_sii_request_unpack(q.spec_pack() + rest) == Ok::<SiiRequest, WireError>(q),
{
    let s = q.spec_pack() + rest;
    lemma_sii_control_roundtrip(q.control, u16_le_bytes(q.address) + seq![0u8, 0u8] + rest);
    assert(q.control.spec_pack() + (u16_le_bytes(q.address) + seq![0u8, 0u8] + rest) =~= s);
    lemma_u16_roundtrip(q.address, q.control.spec_pack(), seq![0u8, 0u8] + rest);
    assert(q.control.spec_pack() + u16_le_bytes(q.address) + (seq![0u8, 0u8] + rest) =~= s);
}

} // verus!

verus! {

/// SII register word address, defined in ETG1000.6 Table 16 or ETG2010 Table 2.
#[derive(Debug, Copy, Clone, PartialEq, Eq, Structural)]
pub enum SiiCoding {
    /// PDI Control.
    PdiControl,
    /// PDI Configuration.
    PdiConfiguration,
    /// SyncImpulseLen.
    SyncImpulseLen,
    /// PDI Configuration2.
    PdiConfiguration2,
    /// Configured Station Alias.
    ConfiguredStationAlias,
    /// Checksum.
    Checksum,
    /// Vendor ID.
    VendorId,
    /// Product Code.
    ProductCode,
    /// Revision Number.
    RevisionNumber,
    /// Serial Number.
    SerialNumber,
    /// Reserved.
    Reserved,
    /// Bootstrap Receive Mailbox Offset.
    BootstrapReceiveMailboxOffset,
    /// Bootstrap Receive Mailbox Size.
    BootstrapReceiveMailboxSize,
    /// Bootstrap Send Mailbox Offset.
    BootstrapSendMailboxOffset,
    /// Bootstrap Send Mailbox Size.
    BootstrapSendMailboxSize,
    /// Standard Receive Mailbox Offset.
    StandardReceiveMailboxOffset,
    /// Standard Receive Mailbox Size.
    StandardReceiveMailboxSize,
    /// Standard Send Mailbox Offset.
    StandardSendMailboxOffset,
    /// Standard Send Mailbox Size.
    StandardSendMailboxSize,
    /// Mailbox Protocol.
    MailboxProtocol,
    /// Size.
    Size,
    /// Version.
    Version,
}

/// The word address of an SII register.
pub open spec fn sii_coding_address(c: SiiCoding) -> u16 {
    match c {
        SiiCoding::PdiControl => 0x0000,
        SiiCoding::PdiConfiguration => 0x0001,
        SiiCoding::SyncImpulseLen => 0x0002,
        SiiCoding::PdiConfiguration2 => 0x0003,
        SiiCoding::ConfiguredStationAlias => 0x0004,
        SiiCoding::Checksum => 0x0007,
        SiiCoding::VendorId => 0x0008,
        SiiCoding::ProductCode => 0x000A,
        SiiCoding::RevisionNumber => 0x000C,
        SiiCoding::SerialNumber => 0x000E,
        SiiCoding::Reserved => 0x0010,
        SiiCoding::BootstrapReceiveMailboxOffset => 0x0014,
        SiiCoding::BootstrapReceiveMailboxSize => 0x0015,
        SiiCoding::BootstrapSendMailboxOffset => 0x0016,
        SiiCoding::BootstrapSendMailboxSize => 0x0017,
        SiiCoding::StandardReceiveMailboxOffset => 0x0018,
        SiiCoding::StandardReceiveMailboxSize => 0x0019,
        SiiCoding::StandardSendMailboxOffset => 0x001A,
        SiiCoding::StandardSendMailboxSize => 0x001B,
        SiiCoding::MailboxProtocol => 0x001C,
        SiiCoding::Size => 0x003E,
        SiiCoding::Version => 0x003F,
    }
}

impl SiiCoding {
    /// The word address of this register.
    pub fn address(&self) -> (r: u16)
        ensures
            r == sii_coding_address(*self),
    {
        match self {
            SiiCoding::PdiControl => 0x0000,
            SiiCoding::PdiConfiguration => 0x0001,
            SiiCoding::SyncImpulseLen => 0x0002,
            SiiCoding::PdiConfiguration2 => 0x0003,
            SiiCoding::ConfiguredStationAlias => 0x0004,
            SiiCoding::Checksum => 0x0007,
            SiiCoding::VendorId => 0x0008,
            SiiCoding::ProductCode => 0x000A,
            SiiCoding::RevisionNumber => 0x000C,
            SiiCoding::SerialNumber => 0x000E,
            SiiCoding::Reserved => 0x0010,
            SiiCoding::BootstrapReceiveMailboxOffset => 0x0014,
            SiiCoding::BootstrapReceiveMailboxSize => 0x0015,
            SiiCoding::BootstrapSendMailboxOffset => 0x0016,
            SiiCoding::BootstrapSendMailboxSize => 0x0017,
            SiiCoding::StandardReceiveMailboxOffset => 0x0018,
            SiiCoding::StandardReceiveMailboxSize => 0x0019,
            SiiCoding::StandardSendMailboxOffset => 0x001A,
            SiiCoding::StandardSendMailboxSize => 0x001B,
            SiiCoding::MailboxProtocol => 0x001C,
            SiiCoding::Size => 0x003E,
            SiiCoding::Version => 0x003F,
        }
    }
}

/// EEPROM category type, defined in ETG1000.6 Table 19.
#[derive(Default, Debug, Copy, Clone, PartialEq, Eq, Structural)]
pub enum CategoryType {
    /// No operation.
    #[default]
    Nop,
    /// Device specific (also for the values 2 to 9).
    DeviceSpecific,
    /// String repository.
    Strings,
    /// Data types.
    DataTypes,
    /// General information.
    General,
    /// FMMUs.
    Fmmu,
    /// Sync managers.
    SyncManager,
    /// Extended FMMU information.
    FmmuExtended,
    /// Sync units.
    SyncUnit,
    /// TxPDO description.
    TxPdo,
    /// RxPDO description.
    RxPdo,
    /// Distributed clock.
    DistributedClock,
    /// End of the category list.
    End,
}

/// The category type a raw value names, if any.
pub open spec fn category_type_from_u16(v: u16) -> Option<CategoryType> {
    if v == 0 {
        Some(CategoryType::Nop)
    } else if 1 <= v <= 9 {
        Some(CategoryType::DeviceSpecific)
    } else if v == 10 {
        Some(CategoryType::Strings)
    } else if v == 20 {
        Some(CategoryType::DataTypes)
    } else if v == 30 {
        Some(CategoryType::General)
    } else if v == 40 {
        Some(CategoryType::Fmmu)
    } else if v == 41 {
        Some(CategoryType::SyncManager)
    } else if v == 42 {
        Some(CategoryType::FmmuExtended)
    } else if v == 43 {
        Some(CategoryType::SyncUnit)
    } else if v == 50 {
        Some(CategoryType::TxPdo)
    } else if v == 51 {
        Some(CategoryType::RxPdo)
    } else if v == 60 {
        Some(CategoryType::DistributedClock)
    } else if v == 0xffff {
        Some(CategoryType::End)
    } else {
        None
    }
}

/// The raw value of a category type.
pub open spec fn category_type_to_u16(c: CategoryType) -> u16 {
    match c {
        CategoryType::Nop => 0,
        CategoryType::DeviceSpecific => 1,
        CategoryType::Strings => 10,
        CategoryType::DataTypes => 20,
        CategoryType::General => 30,
        CategoryType::Fmmu => 40,
        CategoryType::SyncManager => 41,
        CategoryType::FmmuExtended => 42,
        CategoryType::SyncUnit => 43,
        CategoryType::TxPdo => 50,
        CategoryType::RxPdo => 51,
        CategoryType::DistributedClock => 60,
        CategoryType::End => 0xffff,
    }
}

impl CategoryType {
    /// Decode a raw category type.
    pub fn from_u16(v: u16) -> (r: Option<Self>)
        ensures
            r == category_type_from_u16(v),
    {
        if v == 0 {
            Some(CategoryType::Nop)
        } else if 1 <= v && v <= 9 {
            Some(CategoryType::DeviceSpecific)
        } else if v == 10 {
            Some(CategoryType::Strings)
        } else if v == 20 {
            Some(CategoryType::DataTypes)
        } else if v == 30 {
            Some(CategoryType::General)
        } else if v == 40 {
            Some(CategoryType::Fmmu)
        } else if v == 41 {
            Some(CategoryType::SyncManager)
        } else if v == 42 {
            Some(CategoryType::FmmuExtended)
        } else if v == 43 {
            Some(CategoryType::SyncUnit)
        } else if v == 50 {
            Some(CategoryType::TxPdo)
        } else if v == 51 {
            Some(CategoryType::RxPdo)
        } else if v == 60 {
            Some(CategoryType::DistributedClock)
        } else if v == 0xffff {
            Some(CategoryType::End)
        } else {
            None
        }
    }

    /// The raw value of this category type.
    pub fn to_u16(&self) -> (r: u16)
        ensures
            r == category_type_to_u16(*self),
    {
        match self {
            CategoryType::Nop => 0,
            CategoryType::DeviceSpecific => 1,
            CategoryType::Strings => 10,
            CategoryType::DataTypes => 20,
            CategoryType::General => 30,
            CategoryType::Fmmu => 40,
            CategoryType::SyncManager => 41,
            CategoryType::FmmuExtended => 42,
            CategoryType::SyncUnit => 43,
            CategoryType::TxPdo => 50,
            CategoryType::RxPdo => 51,
            CategoryType::DistributedClock => 60,
            CategoryType::End => 0xffff,
        }
    }

    /// Unpack from the first two bytes of `buf`, little endian.
    pub fn unpack_from_slice(buf: &[u8]) -> (r: Result<Self, WireError>)
        ensures
            buf@.len() < 2 ==> r == Err::<Self, WireError>(WireError::ReadBufferTooShort),
            buf@.len() >= 2 ==> r == (match category_type_from_u16(le_u16_at(buf@, 0)) {
                Some(c) => Ok(c),
                None => Err(WireError::InvalidValue),
            }),
    {
        if buf.len() < 2 {
            return Err(WireError::ReadBufferTooShort);
        }
        match Self::from_u16(read_u16(buf, 0)) {
            Some(c) => Ok(c),
            None => Err(WireError::InvalidValue),
        }
    }
}

/// Every category type survives a trip through its raw value.
pub proof fn lemma_category_type_roundtrip(c: CategoryType)
    ensures
        category_type_from_u16(category_type_to_u16(c)) == Some(c),
{
}

/// The category type codes of ETG1000.6 Table 19: 0 no operation, 1 to 9 device specific,
/// 10 strings, 20 data types, 30 general, 40 FMMU, 41 sync manager, 42 FMMU extended, 43 sync
/// unit, 50 TxPDO, 51 RxPDO, 60 distributed clock and `0xffff` the end marker.
pub proof fn lemma_category_type_codes(v: u16)
    ensures
        category_type_from_u16(0) == Some(CategoryType::Nop),
        1 <= v <= 9 ==> category_type_from_u16(v) == Some(CategoryType::DeviceSpecific),
        category_type_from_u16(10) == Some(CategoryType::Strings),
        category_type_from_u16(20) == Some(CategoryType::DataTypes),
        category_type_from_u16(30) == Some(CategoryType::General),
        category_type_from_u16(40) == Some(CategoryType::Fmmu),
        category_type_from_u16(41) == Some(CategoryType::SyncManager),
        category_type_from_u16(42) == Some(CategoryType::FmmuExtended),
        category_type_from_u16(43) == Some(CategoryType::SyncUnit),
        category_type_from_u16(50) == Some(CategoryType::TxPdo),
        category_type_from_u16(51) == Some(CategoryType::RxPdo),
        category_type_from_u16(60) == Some(CategoryType::DistributedClock),
        category_type_from_u16(0xffff) == Some(CategoryType::End),
{
}

/// The type of PDO to search for.
#[derive(Debug, Copy, Clone, PartialEq, Eq, Structural)]
pub enum PdoType {
    /// SubDevice send, MainDevice receive.
    Tx,
    /// SubDevice receive, MainDevice send.
    Rx,
}

impl From<PdoType> for CategoryType {
    fn from(value: PdoType) -> (r: Self)
        ensures
            r == (match value {
                PdoType::Tx => CategoryType::TxPdo,
                PdoType::Rx => CategoryType::RxPdo,
            }),
    {
        match value {
            PdoType::Tx => CategoryType::TxPdo,
            PdoType::Rx => CategoryType::RxPdo,
        }
    }
}

impl vstd::std_specs::convert::FromSpecImpl<PdoType> for CategoryType {
    open spec fn obeys_from_spec() -> bool {
        true
    }

    open spec fn from_spec(value: PdoType) -> Self {
        match value {
            PdoType::Tx => CategoryType::TxPdo,
            PdoType::Rx => CategoryType::RxPdo,
        }
    }
}

/// FMMU usage, defined in ETG1000.6 Table 23.
#[derive(Debug, Copy, Clone, PartialEq, Eq, Structural)]
pub enum FmmuUsage {
    /// Unused (also for the value `0xff`).
    Unused,
    /// Outputs.
    Outputs,
    /// Inputs.
    Inputs,
    /// Sync manager status.
    SyncManagerStatus,
}

/// The FMMU usage a raw value names, if any.
pub open spec fn fmmu_usage_from_u8(v: u8) -> Option<FmmuUsage> {
    if v == 0 || v == 0xff {
        Some(FmmuUsage::Unused)
    } else if v == 1 {
        Some(FmmuUsage::Outputs)
    } else if v == 2 {
        Some(FmmuUsage::Inputs)
    } else if v == 3 {
        Some(FmmuUsage::SyncManagerStatus)
    } else {
        None
    }
}

impl FmmuUsage {
    /// Decode a raw FMMU usage.
    pub fn from_u8(v: u8) -> (r: Option<Self>)
        ensures
            r == fmmu_usage_from_u8(v),
    {
        if v == 0 || v == 0xff {
            Some(FmmuUsage::Unused)
        } else if v == 1 {
            Some(FmmuUsage::Outputs)
        } else if v == 2 {
            Some(FmmuUsage::Inputs)
        } else if v == 3 {
            Some(FmmuUsage::SyncManagerStatus)
        } else {
            None
        }
    }

    /// Unpack from the first byte of `buf`.
    pub fn unpack_from_slice(buf: &[u8]) -> (r: Result<Self, WireError>)
        ensures
            buf@.len() < 1 ==> r == Err::<Self, WireError>(WireError::ReadBufferTooShort),
            buf@.len() >= 1 ==> r == (match fmmu_usage_from_u8(buf@[0]) {
                Some(c) => Ok(c),
                None => Err(WireError::InvalidValue),
            }),
    {
        if buf.len() < 1 {
            return Err(WireError::ReadBufferTooShort);
        }
        match Self::from_u8(buf[0]) {
            Some(c) => Ok(c),
            None => Err(WireError::InvalidValue),
        }
    }
}

/// Extended FMMU information, ETG1020 Table 10 "FMMU_EX": three bytes, of which the middle one
/// holds the sync manager index.
#[derive(Debug, Copy, Clone, PartialEq, Eq, Structural)]
pub struct FmmuEx {
    /// Sync manager index.
    pub sync_manager: u8,
}

impl FmmuEx {
    /// Unpack from the first three bytes of `buf`.
    pub fn unpack_from_slice(buf: &[u8]) -> (r: Result<Self, WireError>)
        ensures
            buf@.len() < 3 ==> r == Err::<Self, WireError>(WireError::ReadBufferTooShort),
            buf@.len() >= 3 ==> r == Ok::<Self, WireError>(FmmuEx { sync_manager: buf@[1] }),
    {
        if buf.len() < 3 {
            return Err(WireError::ReadBufferTooShort);
        }
        Ok(FmmuEx { sync_manager: buf[1] })
    }
}

/// The physical layer of a port.
#[derive(Default, Debug, Copy, Clone, PartialEq, Eq, Structural)]
pub enum PortStatus {
    /// Not used.
    #[default]
    Unused,
    /// MII.
    Mii,
    /// Reserved.
    Reserved,
    /// EBUS.
    Ebus,
    /// Fast hot connect.
    FastHotConnect,
}

/// The port status a four bit value names; values above 4 name none and read as unused.
pub open spec fn port_status_from_nibble(v: u8) -> PortStatus {
    if v == 1 {
        PortStatus::Mii
    } else if v == 2 {
        PortStatus::Reserved
    } else if v == 3 {
        PortStatus::Ebus
    } else if v == 4 {
        PortStatus::FastHotConnect
    } else {
        PortStatus::Unused
    }
}

impl PortStatus {
    /// Decode a four bit port status.
    pub fn from_nibble(v: u8) -> (r: Self)
        ensures
            r == port_status_from_nibble(v),
    {
        if v == 1 {
            PortStatus::Mii
        } else if v == 2 {
            PortStatus::Reserved
        } else if v == 3 {
            PortStatus::Ebus
        } else if v == 4 {
            PortStatus::FastHotConnect
        } else {
            PortStatus::Unused
        }
    }
}

/// The physical layer of each of the four ports, one per four bits of a little-endian `u16`.
#[derive(Default, Copy, Clone, Debug, PartialEq, Eq)]
pub struct PortStatuses(pub [PortStatus; 4]);

/// The port statuses the two bytes `lo`, `hi` hold, low nibble first.
pub open spec fn spec_port_statuses(lo: u8, hi: u8) -> Seq<PortStatus> {
    seq![
        port_status_from_nibble(lo % 16),
        port_status_from_nibble(lo / 16),
        port_status_from_nibble(hi % 16),
        port_status_from_nibble(hi / 16),
    ]
}

impl PortStatuses {
    /// Unpack from the first two bytes of `buf`.
    pub fn unpack_from_slice(buf: &[u8]) -> (r: Result<Self, WireError>)
        ensures
            buf@.len() < 2 ==> r is Err && r == Err::<Self, WireError>(WireError::ReadBufferTooShort),
            buf@.len() >= 2 ==> (r matches Ok(p) && p.0@ == spec_port_statuses(buf@[0], buf@[1])),
    {
        if buf.len() < 2 {
            return Err(WireError::ReadBufferTooShort);
        }
        let lo = buf[0];
        let hi = buf[1];
        let r = PortStatuses(
            [
                PortStatus::from_nibble(lo % 16),
                PortStatus::from_nibble(lo / 16),
                PortStatus::from_nibble(hi % 16),
                PortStatus::from_nibble(hi / 16),
            ],
        );
        assert(r.0@ =~= spec_port_statuses(lo, hi));
        Ok(r)
    }
}

} // verus!

verus! {

/// SII general category flags.
#[derive(Debug, Default, Copy, Clone, PartialEq, Eq, Structural)]
pub struct Flags {
    /// The raw flag bits; only the lowest five are defined.
    pub bits: u8,
}

impl Flags {
    /// Enable SafeOp.
    pub const ENABLE_SAFE_OP: u8 = 0x01;
    /// Enable notLRW.
    pub const ENABLE_NOT_LRW: u8 = 0x02;
    /// Mailbox data link layer.
    pub const MAILBOX_DLL: u8 = 0x04;
    /// Identification by AL status.
    pub const IDENT_AL_STATUS: u8 = 0x08;
    /// Identification by physical memory.
    pub const IDENT_PHY_M: u8 = 0x10;

    /// No flags set.
    pub fn empty() -> (r: Self)
        ensures
            r.bits == 0,
    {
        Flags { bits: 0 }
    }

    /// The flags for raw bits, if only defined bits are set.
    pub fn from_bits(bits: u8) -> (r: Option<Self>)
        ensures
            r == (if bits < 0x20 {
                Some(Flags { bits })
            } else {
                None
            }),
    {
        if bits < 0x20 {
            Some(Flags { bits })
        } else {
            None
        }
    }
}

/// CoE details of the SII general category.
#[derive(Debug, Default, Copy, Clone, PartialEq, Eq, Structural)]
pub struct CoeDetails {
    /// The raw flag bits; only the lowest six are defined.
    pub bits: u8,
}

impl CoeDetails {
    /// Bit 0: Enable SDO.
    pub const ENABLE_SDO: u8 = 0x01;
    /// Bit 1: Enable SDO Info.
    pub const ENABLE_SDO_INFO: u8 = 0x02;
    /// Bit 2: Enable PDO Assign.
    pub const ENABLE_PDO_ASSIGN: u8 = 0x04;
    /// Bit 3: Enable PDO Configuration.
    pub const ENABLE_PDO_CONFIG: u8 = 0x08;
    /// Bit 4: Enable Upload at startup.
    pub const ENABLE_STARTUP_UPLOAD: u8 = 0x10;
    /// Bit 5: Enable SDO complete access.
    pub const ENABLE_COMPLETE_ACCESS: u8 = 0x20;

    /// No flags set.
    pub fn empty() -> (r: Self)
        ensures
            r.bits == 0,
    {
        CoeDetails { bits: 0 }
    }

    /// The flags for raw bits, if only defined bits are set.
    pub fn from_bits(bits: u8) -> (r: Option<Self>)
        ensures
            r == (if bits < 0x40 {
                Some(CoeDetails { bits })
            } else {
                None
            }),
    {
        if bits < 0x40 {
            Some(CoeDetails { bits })
        } else {
            None
        }
    }
}

/// Sync manager enable flags.
#[derive(Debug, Default, Copy, Clone, PartialEq, Eq, Structural)]
pub struct SyncManagerEnable {
    /// The raw flag bits; only the lowest four are defined.
    pub bits: u8,
}

impl SyncManagerEnable {
    /// Bit 0: enable.
    pub const ENABLE: u8 = 0x01;
    /// Bit 1: fixed content.
    pub const IS_FIXED: u8 = 0x02;
    /// Bit 2: virtual SyncManager, no hardware resource used.
    pub const IS_VIRTUAL: u8 = 0x04;
    /// Bit 3: enable only in OP state.
    pub const OP_ONLY: u8 = 0x08;

    /// The flags for raw bits, if only defined bits are set.
    pub fn from_bits(bits: u8) -> (r: Option<Self>)
        ensures
            r == (if bits < 0x10 {
                Some(SyncManagerEnable { bits })
            } else {
                None
            }),
    {
        if bits < 0x10 {
            Some(SyncManagerEnable { bits })
        } else {
            None
        }
    }
}

/// Supported mailbox protocols, defined in ETG1000.6 Table 18. On the wire a `u16` of which only
/// the lower byte holds data.
#[derive(Debug, Default, Copy, Clone, PartialEq, Eq, Structural)]
pub struct MailboxProtocols {
    /// The raw flag bits; only the lowest six are defined.
    pub bits: u8,
}

impl MailboxProtocols {
    /// ADS over EtherCAT.
    pub const AOE: u8 = 0x01;
    /// Ethernet over EtherCAT.
    pub const EOE: u8 = 0x02;
    /// CAN application protocol over EtherCAT.
    pub const COE: u8 = 0x04;
    /// File Access over EtherCAT.
    pub const FOE: u8 = 0x08;
    /// Servo Drive Profile over EtherCAT.
    pub const SOE: u8 = 0x10;
    /// Vendor specific protocol over EtherCAT.
    pub const VOE: u8 = 0x20;

    /// The flags for raw bits, if only defined bits are set.
    pub fn from_bits(bits: u8) -> (r: Option<Self>)
        ensures
            r == (if bits < 0x40 {
                Some(MailboxProtocols { bits })
            } else {
                None
            }),
    {
        if bits < 0x40 {
            Some(MailboxProtocols { bits })
        } else {
            None
        }
    }

    /// Whether no protocol is supported.
    pub fn is_empty(&self) -> (r: bool)
        ensures
            r == (self.bits == 0),
    {
        self.bits == 0
    }
}

/// A raw `bool` byte: only `1` is true.
pub open spec fn byte_bool(b: u8) -> bool {
    b == 1
}

/// Packed length of [`SiiGeneral`] in bytes.
pub const SII_GENERAL_LEN: usize = 18;

/// SII "General" category, defined in ETG1000.6 Table 21.
#[derive(Debug, Default, Copy, Clone, PartialEq, Eq)]
pub struct SiiGeneral {
    /// Group name string index.
    pub group_string_idx: u8,
    /// Image name string index.
    pub image_string_idx: u8,
    /// Order number string index.
    pub order_string_idx: u8,
    /// Device name string index.
    pub name_string_idx: u8,
    /// CoE details.
    pub coe_details: CoeDetails,
    /// FoE enabled.
    pub foe_enabled: bool,
    /// EoE enabled.
    pub eoe_enabled: bool,
    /// Flags.
    pub flags: Flags,
    /// EBus current consumption in mA; a negative value feeds current in.
    pub ebus_current: i16,
    /// Physical layer of each port.
    pub ports: PortStatuses,
    /// The ESC memory address where the identification ID is stored.
    pub physical_memory_addr: u16,
}

/// The two's complement value of a little-endian `u16`.
pub open spec fn i16_of(v: u16) -> i16 {
    if v < 0x8000 {
        v as i16
    } else {
        (v - 0x10000) as i16
    }
}

/// `g` is the General category the bytes `buf` hold.
pub open spec fn sii_general_of(buf: Seq<u8>, g: SiiGeneral) -> bool {
    &&& g.group_string_idx == buf[0]
    &&& g.image_string_idx == buf[1]
    &&& g.order_string_idx == buf[2]
    &&& g.name_string_idx == buf[3]
    &&& g.coe_details == CoeDetails { bits: buf[5] }
    &&& g.foe_enabled == byte_bool(buf[6])
    &&& g.eoe_enabled == byte_bool(buf[7])
    &&& g.flags == Flags { bits: buf[11] }
    &&& g.ebus_current == i16_of(le_u16_at(buf, 12))
    &&& g.ports.0@ == spec_port_statuses(buf[14], buf[15])
    &&& g.physical_memory_addr == le_u16_at(buf, 16)
}

/// `g` and `h` agree in every field of the General category but the FoE and EoE flags.
pub open spec fn general_agrees_but_protocols(g: SiiGeneral, h: SiiGeneral) -> bool {
    &&& g.group_string_idx == h.group_string_idx
    &&& g.image_string_idx == h.image_string_idx
    &&& g.order_string_idx == h.order_string_idx
    &&& g.name_string_idx == h.name_string_idx
    &&& g.coe_details == h.coe_details
    &&& g.flags == h.flags
    &&& g.ebus_current == h.ebus_current
    &&& g.ports.0@ == h.ports.0@
    &&& g.physical_memory_addr == h.physical_memory_addr
}

/// Layout of the General category (ETG1000.6 Table 21): the string indices of group, image,
/// order number and name in bytes 0 to 3, a reserved byte 4, CoE details in byte 5, FoE enabled in
/// byte 6 and EoE enabled in byte 7 (a byte of `1` enables the protocol), three reserved bytes,
/// flags in byte 11, the EBus current in bytes 12 and 13, the ports in 14 and 15 and the physical
/// memory address in 16 and 17. Changing byte 6 changes only whether FoE is enabled, and changing
/// byte 7 only whether EoE is.
pub proof fn lemma_general_protocol_bytes(
    buf: Seq<u8>,
    g: SiiGeneral,
    other: Seq<u8>,
    h: SiiGeneral,
)
    requires
        buf.len() >= 18,
        sii_general_of(buf, g),
        other.len() >= 18,
        sii_general_of(other, h),
    ensures
        g.foe_enabled <==> buf[6] == 1,
        g.eoe_enabled <==> buf[7] == 1,
        g.name_string_idx == buf[3],
        g.physical_memory_addr == buf[16] + 256 * buf[17],
        (forall|i: int| 0 <= i < 18 && i != 6 ==> other[i] == buf[i]) ==> {
            &&& general_agrees_but_protocols(g, h)
            &&& h.eoe_enabled == g.eoe_enabled
            &&& (h.foe_enabled <==> other[6] == 1)
        },
        (forall|i: int| 0 <= i < 18 && i != 7 ==> other[i] == buf[i]) ==> {
            &&& general_agrees_but_protocols(g, h)
            &&& h.foe_enabled == g.foe_enabled
            &&& (h.eoe_enabled <==> other[7] == 1)
        },
{
    if forall|i: int| 0 <= i < 18 && i != 6 ==> other[i] == buf[i] {
        assert(other[0] == buf[0] && other[1] == buf[1] && other[2] == buf[2] && other[3] == buf[3]);
        assert(other[5] == buf[5] && other[7] == buf[7] && other[11] == buf[11]);
        assert(other[12] == buf[12] && other[13] == buf[13] && other[14] == buf[14]);
        assert(other[15] == buf[15] && other[16] == buf[16] && other[17] == buf[17]);
    }
    if forall|i: int| 0 <= i < 18 && i != 7 ==> other[i] == buf[i] {
        assert(other[0] == buf[0] && other[1] == buf[1] && other[2] == buf[2] && other[3] == buf[3]);
        assert(other[5] == buf[5] && other[6] == buf[6] && other[11] == buf[11]);
        assert(other[12] == buf[12] && other[13] == buf[13] && other[14] == buf[14]);
        assert(other[15] == buf[15] && other[16] == buf[16] && other[17] == buf[17]);
    }
}

impl SiiGeneral {
    /// Unpack from the first eighteen bytes of `buf`.
    pub fn unpack_from_slice(buf: &[u8]) -> (r: Result<Self, WireError>)
        ensures
            buf@.len() < SII_GENERAL_LEN ==> r == Err::<Self, WireError>(
                WireError::ReadBufferTooShort,
            ),
            buf@.len() >= SII_GENERAL_LEN && (buf@[5] >= 0x40 || buf@[11] >= 0x20) ==> r == Err::<
                Self,
                WireError,
            >(WireError::InvalidValue),
            buf@.len() >= SII_GENERAL_LEN && buf@[5] < 0x40 && buf@[11] < 0x20 ==> (r matches Ok(g)
                && sii_general_of(buf@, g)),
    {
        if buf.len() < SII_GENERAL_LEN {
            return Err(WireError::ReadBufferTooShort);
        }
        let coe_details = match CoeDetails::from_bits(buf[5]) {
            Some(c) => c,
            None => {
                return Err(WireError::InvalidValue);
            },
        };
        let flags = match Flags::from_bits(buf[11]) {
            Some(f) => f,
            None => {
                return Err(WireError::InvalidValue);
            },
        };
        let raw_current = read_u16(buf, 12);
        let ebus_current: i16 = if raw_current < 0x8000 {
            raw_current as i16
        } else {
            (raw_current as i32 - 0x10000) as i16
        };
        let ports = match PortStatuses::unpack_from_slice(slice_subrange(buf, 14, 16)) {
            Ok(p) => p,
            Err(e) => {
                return Err(e);
            },
        };
        Ok(
            SiiGeneral {
                group_string_idx: buf[0],
                image_string_idx: buf[1],
                order_string_idx: buf[2],
                name_string_idx: buf[3],
                coe_details,
                foe_enabled: buf[6] == 1,
                eoe_enabled: buf[7] == 1,
                flags,
                ebus_current,
                ports,
                physical_memory_addr: read_u16(buf, 16),
            },
        )
    }
}

/// The use of a sync manager.
#[derive(Default, Debug, Copy, Clone, PartialEq, Eq, Structural)]
pub enum SyncManagerType {
    /// Not used or unknown.
    #[default]
    Unknown,
    /// Used for writing into the SubDevice.
    MailboxWrite,
    /// Used for reading from the SubDevice.
    MailboxRead,
    /// Used for process data outputs from MainDevice.
    ProcessDataWrite,
    /// Used for process data inputs to MainDevice.
    ProcessDataRead,
}

/// The sync manager type a raw value names, if any.
pub open spec fn sync_manager_type_from_u8(v: u8) -> Option<SyncManagerType> {
    if v == 0 {
        Some(SyncManagerType::Unknown)
    } else if v == 1 {
        Some(SyncManagerType::MailboxWrite)
    } else if v == 2 {
        Some(SyncManagerType::MailboxRead)
    } else if v == 3 {
        Some(SyncManagerType::ProcessDataWrite)
    } else if v == 4 {
        Some(SyncManagerType::ProcessDataRead)
    } else {
        None
    }
}

impl SyncManagerType {
    /// Decode a raw sync manager type.
    pub fn from_u8(v: u8) -> (r: Option<Self>)
        ensures
            r == sync_manager_type_from_u8(v),
    {
        if v == 0 {
            Some(SyncManagerType::Unknown)
        } else if v == 1 {
            Some(SyncManagerType::MailboxWrite)
        } else if v == 2 {
            Some(SyncManagerType::MailboxRead)
        } else if v == 3 {
            Some(SyncManagerType::ProcessDataWrite)
        } else if v == 4 {
            Some(SyncManagerType::ProcessDataRead)
        } else {
            None
        }
    }
}

/// Packed length of [`SyncManager`] in bytes.
pub const SYNC_MANAGER_LEN: usize = 8;

/// A sync manager from the EEPROM: start address, length, control byte, a skipped byte, enable
/// flags and usage type.
#[derive(Debug, Copy, Clone, PartialEq, Eq, Structural)]
pub struct SyncManager {
    /// Start address.
    pub start_addr: u16,
    /// Length in bytes.
    pub length: u16,
    /// Control byte.
    pub control: Control,
    /// Enable flags.
    pub enable: SyncManagerEnable,
    /// Usage type as stored; see [`SyncManager::usage_type`].
    pub usage_type: SyncManagerType,
}

/// The sync manager the first eight bytes of `s` hold.
pub open spec fn spec_sync_manager_unpack(s: Seq<u8>) -> Result<SyncManager, WireError> {
    if s.len() < SYNC_MANAGER_LEN {
        Err(WireError::ReadBufferTooShort)
    } else {
        match (spec_control_from_byte(s[4]), sync_manager_type_from_u8(s[7])) {
            (Ok(control), Some(usage_type)) => if s[6] < 0x10 {
                Ok(
                    SyncManager {
                        start_addr: le_u16_at(s, 0),
                        length: le_u16_at(s, 2),
                        control,
                        enable: SyncManagerEnable { bits: s[6] },
                        usage_type,
                    },
                )
            } else {
                Err(WireError::InvalidValue)
            },
            _ => Err(WireError::InvalidValue),
        }
    }
}

/// A sync manager record (ETG1000.6 Table 23) holds the start address in bytes 0 and 1 and the
/// length in bytes 2 and 3, little-endian, the control byte in byte 4, a reserved byte 5, the
/// enable flags in byte 6 and the usage type in byte 7. Bytes after the eighth play no part.
pub proof fn lemma_sync_manager_layout(s: Seq<u8>, t: Seq<u8>)
    ensures
        spec_sync_manager_unpack(s) matches Ok(m) ==> {
            &&& s.len() >= 8
            &&& m.start_addr == s[0] + 256 * s[1]
            &&& m.length == s[2] + 256 * s[3]
            &&& spec_control_from_byte(s[4]) == Ok::<Control, WireError>(m.control)
            &&& m.enable.bits == s[6]
            &&& sync_manager_type_from_u8(s[7]) == Some(m.usage_type)
        },
        s.len() >= 8 && t.len() >= 8 && s.subrange(0, 8) == t.subrange(0, 8)
            ==> spec_sync_manager_unpack(s) == spec_sync_manager_unpack(t),
{
    if s.len() >= 8 && t.len() >= 8 && s.subrange(0, 8) == t.subrange(0, 8) {
        assert forall|k: int| 0 <= k < 8 implies s[k] == t[k] by {
            assert(s.subrange(0, 8)[k] == t.subrange(0, 8)[k]);
        }
    }
}

/// The usage a sync manager's control byte implies.
pub open spec fn usage_from_control(c: Control) -> SyncManagerType {
    match (c.operation_mode, c.direction) {
        (OperationMode::Normal, Direction::MasterRead) => SyncManagerType::ProcessDataRead,
        (OperationMode::Normal, Direction::MasterWrite) => SyncManagerType::ProcessDataWrite,
        (OperationMode::Mailbox, Direction::MasterRead) => SyncManagerType::MailboxRead,
        (OperationMode::Mailbox, Direction::MasterWrite) => SyncManagerType::MailboxWrite,
    }
}

impl SyncManager {
    /// The usage type, recovered from the operation mode and direction when it is stored as
    /// unknown.
    pub fn usage_type(&self) -> (r: SyncManagerType)
        ensures
            r == (if self.usage_type != SyncManagerType::Unknown {
                self.usage_type
            } else {
                usage_from_control(self.control)
            }),
    {
        if self.usage_type != SyncManagerType::Unknown {
            self.usage_type
        } else {
            match (self.control.operation_mode, self.control.direction) {
                (OperationMode::Normal, Direction::MasterRead) => SyncManagerType::ProcessDataRead,
                (OperationMode::Normal, Direction::MasterWrite) => {
                    SyncManagerType::ProcessDataWrite
                },
                (OperationMode::Mailbox, Direction::MasterRead) => SyncManagerType::MailboxRead,
                (OperationMode::Mailbox, Direction::MasterWrite) => SyncManagerType::MailboxWrite,
            }
        }
    }

    /// Unpack from the first eight bytes of `buf`.
    pub fn unpack_from_slice(buf: &[u8]) -> (r: Result<Self, WireError>)
        ensures
            r == spec_sync_manager_unpack(buf@),
    {
        if buf.len() < SYNC_MANAGER_LEN {
            return Err(WireError::ReadBufferTooShort);
        }
        let control = match Control::from_byte(buf[4]) {
            Ok(c) => c,
            Err(e) => {
                return Err(e);
            },
        };
        let enable = match SyncManagerEnable::from_bits(buf[6]) {
            Some(e) => e,
            None => {
                return Err(WireError::InvalidValue);
            },
        };
        let usage_type = match SyncManagerType::from_u8(buf[7]) {
            Some(u) => u,
            None => {
                return Err(WireError::InvalidValue);
            },
        };
        Ok(
            SyncManager {
                start_addr: read_u16(buf, 0),
                length: read_u16(buf, 2),
                control,
                enable,
                usage_type,
            },
        )
    }
}

/// A PDO description, ETG2010 Table 14: eight bytes, of which byte 2 holds the number of entries
/// and byte 3 the sync manager.
#[derive(Debug, Copy, Clone, PartialEq, Eq, Structural)]
pub struct Pdo {
    /// Number of entries.
    pub num_entries: u8,
    /// Sync manager.
    pub sync_manager: u8,
    /// Total bit length of all entries; not on the wire, filled in later.
    pub bit_len: u16,
}

impl Pdo {
    /// Unpack from the first eight bytes of `buf`; the bit length starts at zero.
    pub fn unpack_from_slice(buf: &[u8]) -> (r: Result<Self, WireError>)
        ensures
            buf@.len() < 8 ==> r == Err::<Self, WireError>(WireError::ReadBufferTooShort),
            buf@.len() >= 8 ==> r == Ok::<Self, WireError>(
                Pdo { num_entries: buf@[2], sync_manager: buf@[3], bit_len: 0 },
            ),
    {
        if buf.len() < 8 {
            return Err(WireError::ReadBufferTooShort);
        }
        Ok(Pdo { num_entries: buf[2], sync_manager: buf[3], bit_len: 0 })
    }
}

/// A PDO entry: eight bytes, of which byte 5 holds the data length in bits.
#[derive(Debug, Copy, Clone, PartialEq, Eq, Structural)]
pub struct PdoEntry {
    /// Data length in bits.
    pub data_length_bits: u8,
}

impl PdoEntry {
    /// Unpack from the first eight bytes of `buf`.
    pub fn unpack_from_slice(buf: &[u8]) -> (r: Result<Self, WireError>)
        ensures
            buf@.len() < 8 ==> r == Err::<Self, WireError>(WireError::ReadBufferTooShort),
            buf@.len() >= 8 ==> r == Ok::<Self, WireError>(PdoEntry { data_length_bits: buf@[5] }),
    {
        if buf.len() < 8 {
            return Err(WireError::ReadBufferTooShort);
        }
        Ok(PdoEntry { data_length_bits: buf[5] })
    }
}

/// Default mailbox configuration: four `u16` offsets and sizes and the supported protocols.
#[derive(Debug, Default, Copy, Clone, PartialEq, Eq, Structural)]
pub struct DefaultMailbox {
    /// MainDevice to SubDevice receive mailbox address offset.
    pub subdevice_receive_offset: u16,
    /// MainDevice to SubDevice receive mailbox size.
    pub subdevice_receive_size: u16,
    /// SubDevice to MainDevice send mailbox address offset.
    pub subdevice_send_offset: u16,
    /// SubDevice to MainDevice send mailbox size.
    pub subdevice_send_size: u16,
    /// Mailbox protocols supported by the SubDevice.
    pub supported_protocols: MailboxProtocols,
}

impl DefaultMailbox {
    /// Whether the SubDevice has a mailbox: it supports a protocol and has a receive mailbox, or it
    /// has a send mailbox.
    pub fn has_mailbox(&self) -> (r: bool)
        ensures
            r == (self.supported_protocols.bits != 0 && self.subdevice_receive_size > 0
                || self.subdevice_send_size > 0),
    {
        !self.supported_protocols.is_empty() && self.subdevice_receive_size > 0
            || self.subdevice_send_size > 0
    }

    /// Unpack from the first ten bytes of `buf`.
    pub fn unpack_from_slice(buf: &[u8]) -> (r: Result<Self, WireError>)
        ensures
            buf@.len() < 10 ==> r == Err::<Self, WireError>(WireError::ReadBufferTooShort),
            buf@.len() >= 10 && buf@[8] >= 0x40 ==> r == Err::<Self, WireError>(
                WireError::InvalidValue,
            ),
            buf@.len() >= 10 && buf@[8] < 0x40 ==> r == Ok::<Self, WireError>(
                DefaultMailbox {
                    subdevice_receive_offset: le_u16_at(buf@, 0),
                    subdevice_receive_size: le_u16_at(buf@, 2),
                    subdevice_send_offset: le_u16_at(buf@, 4),
                    subdevice_send_size: le_u16_at(buf@, 6),
                    supported_protocols: MailboxProtocols { bits: buf@[8] },
                },
            ),
    {
        if buf.len() < 10 {
            return Err(WireError::ReadBufferTooShort);
        }
        let supported_protocols = match MailboxProtocols::from_bits(buf[8]) {
            Some(p) => p,
            None => {
                return Err(WireError::InvalidValue);
            },
        };
        Ok(
            DefaultMailbox {
                subdevice_receive_offset: read_u16(buf, 0),
                subdevice_receive_size: read_u16(buf, 2),
                subdevice_send_offset: read_u16(buf, 4),
                subdevice_send_size: read_u16(buf, 6),
                supported_protocols,
            },
        )
    }
}

} // verus!
