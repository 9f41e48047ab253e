//! CANopen over EtherCAT (CoE) headers.
use vstd::prelude::*;
use crate::wire::{le_u16_at, lemma_u16_roundtrip, read_u16, u16_le_bytes, u16_to_le, WireError};

pub mod abort_code;
pub mod services;

verus! {

/// Defined in ETG1000.6 Table 29 – CoE elements
#[derive(PartialEq, Eq, Structural, Debug, Copy, Clone)]
pub enum CoeService {
    /// Emergency
    Emergency,
    /// SDO Request
    SdoRequest,
    /// SDO Response
    SdoResponse,
    /// TxPDO
    TxPdo,
    /// RxPDO
    RxPdo,
    /// TxPDO remote request
    TxPdoRemoteRequest,
    /// RxPDO remote request
    RxPdoRemoteRequest,
    /// SDO Information
    SdoInformation,
}

/// The CoE service a number names, if any.
pub open spec fn coe_service_from_u8(n: u8) -> Option<CoeService> {
    if n == 1 {
        Some(CoeService::Emergency)
    } else if n == 2 {
        Some(CoeService::SdoRequest)
    } else if n == 3 {
        Some(CoeService::SdoResponse)
    } else if n == 4 {
        Some(CoeService::TxPdo)
    } else if n == 5 {
        Some(CoeService::RxPdo)
    } else if n == 6 {
        Some(CoeService::TxPdoRemoteRequest)
    } else if n == 7 {
        Some(CoeService::RxPdoRemoteRequest)
    } else if n == 8 {
        Some(CoeService::SdoInformation)
    } else {
        None
    }
}

/// The number of a CoE service.
pub open spec fn coe_service_to_u8(s: CoeService) -> u8 {
    match s {
        CoeService::Emergency => 1,
        CoeService::SdoRequest => 2,
        CoeService::SdoResponse => 3,
        CoeService::TxPdo => 4,
        CoeService::RxPdo => 5,
        CoeService::TxPdoRemoteRequest => 6,
        CoeService::RxPdoRemoteRequest => 7,
        CoeService::SdoInformation => 8,
    }
}

impl CoeService {
    /// Decode a service from its number.
    pub fn from_u8(n: u8) -> (r: Option<Self>)
        ensures
            r == coe_service_from_u8(n),
    {
        if n == 1 {
            Some(CoeService::Emergency)
        } else if n == 2 {
            Some(CoeService::SdoRequest)
        } else if n == 3 {
            Some(CoeService::SdoResponse)
        } else if n == 4 {
            Some(CoeService::TxPdo)
        } else if n == 5 {
            Some(CoeService::RxPdo)
        } else if n == 6 {
            Some(CoeService::TxPdoRemoteRequest)
        } else if n == 7 {
            Some(CoeService::RxPdoRemoteRequest)
        } else if n == 8 {
            Some(CoeService::SdoInformation)
        } else {
            None
        }
    }

    /// The number of this service.
    pub fn to_u8(&self) -> (r: u8)
        ensures
            r == coe_service_to_u8(*self),
            1 <= r <= 8,
            coe_service_from_u8(r) == Some(*self),
    {
        match self {
            CoeService::Emergency => 1,
            CoeService::SdoRequest => 2,
            CoeService::SdoResponse => 3,
            CoeService::TxPdo => 4,
            CoeService::RxPdo => 5,
            CoeService::TxPdoRemoteRequest => 6,
            CoeService::RxPdoRemoteRequest => 7,
            CoeService::SdoInformation => 8,
        }
    }

    /// Pack into the single byte sent on the wire.
    pub fn pack(&self) -> (r: [u8; 1])
        ensures
            r@ == seq![coe_service_to_u8(*self)],
    {
        let r = [self.to_u8()];
        assert(r@ =~= seq![coe_service_to_u8(*self)]);
        r
    }

    /// Unpack from the first byte of `buf`.
    pub fn unpack_from_slice(buf: &[u8]) -> (r: Result<Self, WireError>)
        ensures
            buf@.len() < 1 ==> r == Err::<CoeService, WireError>(WireError::ReadBufferTooShort),
            buf@.len() >= 1 ==> r == match coe_service_from_u8(buf@[0]) {
                Some(s) => Ok(s),
                None => Err(WireError::InvalidValue),
            },
    {
        if buf.len() < 1 {
            return Err(WireError::ReadBufferTooShort);
        }
        match Self::from_u8(buf[0]) {
            Some(s) => Ok(s),
            None => Err(WireError::InvalidValue),
        }
    }
}

/// CoE header: a nine bit number and the service in the top four bits of a little-endian `u16`.
///
/// Defined in ETG1000.6 5.6.1.
#[derive(PartialEq, Eq, Structural, Debug, Copy, Clone)]
pub struct CoeHeader {
    /// Number (used by PDO services, zero for SDO services).
    pub number: u16,
    /// CoE service.
    pub service: CoeService,
}

/// The CoE header the first two bytes of `s` hold.
pub open spec fn spec_coe_header_unpack(s: Seq<u8>) -> Result<CoeHeader, WireError> {
    if s.len() < 2 {
        Err(WireError::ReadBufferTooShort)
    } else {
        let raw = le_u16_at(s, 0);
        match coe_service_from_u8((raw / 4096) as u8) {
            Some(service) => Ok(CoeHeader { number: raw % 512, service }),
            None => Err(WireError::InvalidValue),
        }
    }
}

impl CoeHeader {
    /// The number fits in its nine bits.
    pub open spec fn wf(self) -> bool {
        self.number < 512
    }

    /// The two bytes this header packs into; the number is truncated to nine bits.
    pub open spec fn spec_pack(self) -> Seq<u8> {
        u16_le_bytes(
            ((self.number % 512) as int + 4096 * coe_service_to_u8(self.service) as int) as u16,
        )
    }

    /// Pack into the two bytes sent on the wire.
    pub fn pack(&self) -> (r: [u8; 2])
        ensures
            r@ == self.spec_pack(),
    {
        let number = self.number % 512;
        let service = self.service.to_u8() as u16;
        u16_to_le(number + 4096 * service)
    }

    /// Unpack from the first two bytes of `buf`.
    pub fn unpack_from_slice(buf: &[u8]) -> (r: Result<Self, WireError>)
        ensures
            r == spec_coe_header_unpack(buf@),
    {
        if buf.len() < 2 {
            return Err(WireError::ReadBufferTooShort);
        }
        let raw = read_u16(buf, 0);
        match CoeService::from_u8((raw / 4096) as u8) {
            Some(service) => Ok(Self { number: raw % 512, service }),
            None => Err(WireError::InvalidValue),
        }
    }
}

/// Unpacking a packed CoE header gives it back.
pub proof fn lemma_coe_header_roundtrip(h: CoeHeader, rest: Seq<u8>)
    requires
        h.wf(),
    ensures
        spec_coe_header_unpack(h.spec_pack() + rest) == Ok::<CoeHeader, WireError>(h),
{
    let raw = ((h.number % 512) as int + 4096 * coe_service_to_u8(h.service) as int) as u16;
    lemma_u16_roundtrip(raw, Seq::empty(), rest);
    assert(Seq::<u8>::empty() + u16_le_bytes(raw) + rest =~= h.spec_pack() + rest);
}

/// The field near the bottom of SDO definition tables called "Command specifier", held in three
/// bits.
///
/// See e.g. ETG1000.6 Section 5.6.2.6.2 Table 39 – Upload SDO Segment Response.
#[derive(PartialEq, Eq, Structural, Debug, Copy, Clone)]
pub enum CoeCommand {
    /// Download request.
    DownloadRequest,
    /// Upload request.
    UploadRequest,
    /// Abort request.
    AbortRequest,
    /// Upload segment request.
    UploadSegmentRequest,
}

/// The command specifier a three bit value names, if any.
pub open spec fn coe_command_from_bits(n: u8) -> Option<CoeCommand> {
    if n == 1 {
        Some(CoeCommand::DownloadRequest)
    } else if n == 2 {
        Some(CoeCommand::UploadRequest)
    } else if n == 4 {
        Some(CoeCommand::AbortRequest)
    } else if n == 3 {
        Some(CoeCommand::UploadSegmentRequest)
    } else {
        None
    }
}

/// The three bit value of a command specifier.
pub open spec fn coe_command_to_bits(c: CoeCommand) -> u8 {
    match c {
        CoeCommand::DownloadRequest => 1,
        CoeCommand::UploadRequest => 2,
        CoeCommand::AbortRequest => 4,
        CoeCommand::UploadSegmentRequest => 3,
    }
}

impl CoeCommand {
    /// Decode a command specifier from its three bit value.
    pub fn from_bits(n: u8) -> (r: Option<Self>)
        ensures
            r == coe_command_from_bits(n),
    {
        if n == 1 {
            Some(CoeCommand::DownloadRequest)
        } else if n == 2 {
            Some(CoeCommand::UploadRequest)
        } else if n == 4 {
            Some(CoeCommand::AbortRequest)
        } else if n == 3 {
            Some(CoeCommand::UploadSegmentRequest)
        } else {
            None
        }
    }

    /// The three bit value of this command specifier.
    pub fn to_bits(&self) -> (r: u8)
        ensures
            r == coe_command_to_bits(*self),
            r < 8,
            coe_command_from_bits(r) == Some(*self),
    {
        match self {
            CoeCommand::DownloadRequest => 1,
            CoeCommand::UploadRequest => 2,
            CoeCommand::AbortRequest => 4,
            CoeCommand::UploadSegmentRequest => 3,
        }
    }
}

/// The value of a flag as a number.
pub open spec fn flag(b: bool) -> int {
    if b {
        1
    } else {
        0
    }
}

/// Packed length of an [`InitSdoHeader`] in bytes.
pub const INIT_SDO_HEADER_LEN: usize = 4;

/// Defined in ETG1000.6 Section 5.6.2.1.1.
///
/// Byte 0 holds the size indicator (bit 0), expedited flag (bit 1), size (bits 2-3), complete
/// access flag (bit 4) and command (bits 5-7); bytes 1-2 the index and byte 3 the subindex.
#[derive(PartialEq, Eq, Structural, Debug, Copy, Clone)]
pub struct InitSdoHeader {
    /// Size indicator.
    pub size_indicator: bool,
    /// Expedited transfer.
    pub expedited_transfer: bool,
    /// Number of unused data bytes in an expedited transfer.
    pub size: u8,
    /// Complete access.
    pub complete_access: bool,
    /// Command specifier.
    pub command: CoeCommand,
    /// Object index.
    pub index: u16,
    /// Object subindex.
    pub sub_index: u8,
}

/// The SDO header the first four bytes of `s` hold.
pub open spec fn spec_init_sdo_header_unpack(s: Seq<u8>) -> Result<InitSdoHeader, WireError> {
    if s.len() < INIT_SDO_HEADER_LEN {
        Err(WireError::ReadBufferTooShort)
    } else {
        match coe_command_from_bits(s[0] / 32) {
            Some(command) => Ok(
                InitSdoHeader {
                    size_indicator: s[0] % 2 == 1,
                    expedited_transfer: (s[0] / 2) % 2 == 1,
                    size: (s[0] / 4) % 4,
                    complete_access: (s[0] / 16) % 2 == 1,
                    command,
                    index: le_u16_at(s, 1),
                    sub_index: s[3],
                },
            ),
            None => Err(WireError::InvalidValue),
        }
    }
}

impl InitSdoHeader {
    /// The size fits in its two bits.
    pub open spec fn wf(self) -> bool {
        self.size < 4
    }

    /// The four bytes this header packs into; the size is truncated to two bits.
    pub open spec fn spec_pack(self) -> Seq<u8> {
        seq![
            (flag(self.size_indicator) + 2 * flag(self.expedited_transfer) + 4 * ((self.size % 4) as int)
                + 16 * flag(self.complete_access) + 32 * coe_command_to_bits(self.command) as int) as u8,
        ] + u16_le_bytes(self.index) + seq![self.sub_index]
    }

    /// Pack into the four bytes sent on the wire.
    pub fn pack(&self) -> (r: [u8; 4])
        ensures
            r@ == self.spec_pack(),
    {
        let b0 = (if self.size_indicator { 1u8 } else { 0 }) + (if self.expedited_transfer {
            2u8
        } else {
            0
        }) + 4 * (self.size % 4) + (if self.complete_access { 16u8 } else { 0 }) + 32
            * self.command.to_bits();
        let i = u16_to_le(self.index);
        let r = [b0, i[0], i[1], self.sub_index];
        assert(r@ =~= self.spec_pack());
        r
    }

    /// Unpack from the first four bytes of `buf`.
    pub fn unpack_from_slice(buf: &[u8]) -> (r: Result<Self, WireError>)
        ensures
            r == spec_init_sdo_header_unpack(buf@),
            r matches Ok(v) ==> v.wf(),
    {
        if buf.len() < INIT_SDO_HEADER_LEN {
            return Err(WireError::ReadBufferTooShort);
        }
        let b0 = buf[0];
        match CoeCommand::from_bits(b0 / 32) {
            Some(command) => Ok(
                Self {
                    size_indicator: b0 % 2 == 1,
                    expedited_transfer: (b0 / 2) % 2 == 1,
                    size: (b0 / 4) % 4,
                    complete_access: (b0 / 16) % 2 == 1,
                    command,
                    index: read_u16(buf, 1),
                    sub_index: buf[3],
                },
            ),
            None => Err(WireError::InvalidValue),
        }
    }
}

/// Unpacking a packed SDO header gives it back.
pub proof fn lemma_init_sdo_header_roundtrip(h: InitSdoHeader, rest: Seq<u8>)
    requires
        h.wf(),
    ensures
        spec_init_sdo_header_unpack(h.spec_pack() + rest) == Ok::<InitSdoHeader, WireError>(h),
{
    let s = h.spec_pack() + rest;
    let b0 = s[0];
    lemma_u16_roundtrip(h.index, seq![b0], seq![h.sub_index] + rest);
    assert(seq![b0] + u16_le_bytes(h.index) + (seq![h.sub_index] + rest) =~= s);
    assert(s[3] == h.sub_index);
    assert(b0 / 32 == coe_command_to_bits(h.command));
    assert(b0 % 2 == 1 <==> h.size_indicator);
    assert((b0 / 2) % 2 == 1 <==> h.expedited_transfer);
    assert((b0 / 4) % 4 == h.size);
    assert((b0 / 16) % 2 == 1 <==> h.complete_access);
}

/// Defined in ETG1000.6 5.6.2.3.1.
///
/// Bit 0 holds the last segment flag, bits 1-3 the segment data size, bit 4 the toggle and bits 5-7
/// the command.
#[derive(PartialEq, Eq, Structural, Debug, Copy, Clone)]
pub struct SegmentSdoHeader {
    /// Set on the last segment.
    pub is_last_segment: bool,
    /// Segment data size, `0x00` to `0x07`.
    pub segment_data_size: u8,
    /// Toggle bit, alternating between segments.
    pub toggle: bool,
    /// Command specifier.
    pub command: CoeCommand,
}

/// The segment header the first byte of `s` holds.
pub open spec fn spec_segment_sdo_header_unpack(s: Seq<u8>) -> Result<SegmentSdoHeader, WireError> {
    if s.len() < 1 {
        Err(WireError::ReadBufferTooShort)
    } else {
        match coe_command_from_bits(s[0] / 32) {
            Some(command) => Ok(
                SegmentSdoHeader {
                    is_last_segment: s[0] % 2 == 1,
                    segment_data_size: (s[0] / 2) % 8,
                    toggle: (s[0] / 16) % 2 == 1,
                    command,
                },
            ),
            None => Err(WireError::InvalidValue),
        }
    }
}

impl SegmentSdoHeader {
    /// The segment data size fits in its three bits.
    pub open spec fn wf(self) -> bool {
        self.segment_data_size < 8
    }

    /// The byte this header packs into; the data size is truncated to three bits.
    pub open spec fn spec_pack(self) -> Seq<u8> {
        seq![
            (flag(self.is_last_segment) + 2 * ((self.segment_data_size % 8) as int) + 16 * flag(
                self.toggle,
            ) + 32 * coe_command_to_bits(self.command) as int) as u8,
        ]
    }

    /// Pack into the byte sent on the wire.
    pub fn pack(&self) -> (r: [u8; 1])
        ensures
            r@ == self.spec_pack(),
    {
        let b = (if self.is_last_segment { 1u8 } else { 0 }) + 2 * (self.segment_data_size % 8) + (
        if self.toggle {
            16u8
        } else {
            0
        }) + 32 * self.command.to_bits();
        let r = [b];
        assert(r@ =~= self.spec_pack());
        r
    }

    /// Unpack from the first byte of `buf`.
    pub fn unpack_from_slice(buf: &[u8]) -> (r: Result<Self, WireError>)
        ensures
            r == spec_segment_sdo_header_unpack(buf@),
            r matches Ok(v) ==> v.wf(),
    {
        if buf.len() < 1 {
            return Err(WireError::ReadBufferTooShort);
        }
        let b = buf[0];
        match CoeCommand::from_bits(b / 32) {
            Some(command) => Ok(
                Self {
                    is_last_segment: b % 2 == 1,
                    segment_data_size: (b / 2) % 8,
                    toggle: (b / 16) % 2 == 1,
                    command,
                },
            ),
            None => Err(WireError::InvalidValue),
        }
    }
}

/// Unpacking a packed segment header gives it back.
pub proof fn lemma_segment_sdo_header_roundtrip(h: SegmentSdoHeader, rest: Seq<u8>)
    requires
        h.wf(),
    ensures
        spec_segment_sdo_header_unpack(h.spec_pack() + rest) == Ok::<SegmentSdoHeader, WireError>(
            h,
        ),
{
    let b = h.spec_pack()[0];
    assert((h.spec_pack() + rest)[0] == b);
    assert(b / 32 == coe_command_to_bits(h.command));
    assert(b % 2 == 1 <==> h.is_last_segment);
    assert((b / 2) % 8 == h.segment_data_size);
    assert((b / 16) % 2 == 1 <==> h.toggle);
}

/// SDO information service operation code, held in seven bits.
///
/// Defined in ETG1000.6 Table 43.
#[derive(PartialEq, Eq, Structural, Debug, Copy, Clone)]
pub enum SdoInfoOpCode {
    /// Get object description list request.
    GetObjectDescriptionListRequest,
    /// Get object description list response.
    GetObjectDescriptionListResponse,
    /// Get object description request.
    GetObjectDescriptionRequest,
    /// Get object description response.
    GetObjectDescriptionResponse,
    /// Get entry description request.
    GetEntryDescriptionRequest,
    /// Get entry description response.
    GetEntryDescriptionResponse,
    /// SDO information error request.
    SdoInfoErrorRequest,
}

/// The operation code a seven bit value names, if any.
pub open spec fn sdo_info_op_code_from_bits(n: u8) -> Option<SdoInfoOpCode> {
    if n == 1 {
        Some(SdoInfoOpCode::GetObjectDescriptionListRequest)
    } else if n == 2 {
        Some(SdoInfoOpCode::GetObjectDescriptionListResponse)
    } else if n == 3 {
        Some(SdoInfoOpCode::GetObjectDescriptionRequest)
    } else if n == 4 {
        Some(SdoInfoOpCode::GetObjectDescriptionResponse)
    } else if n == 5 {
        Some(SdoInfoOpCode::GetEntryDescriptionRequest)
    } else if n == 6 {
        Some(SdoInfoOpCode::GetEntryDescriptionResponse)
    } else if n == 7 {
        Some(SdoInfoOpCode::SdoInfoErrorRequest)
    } else {
        None
    }
}

/// The seven bit value of an operation code.
pub open spec fn sdo_info_op_code_to_bits(c: SdoInfoOpCode) -> u8 {
    match c {
        SdoInfoOpCode::GetObjectDescriptionListRequest => 1,
        SdoInfoOpCode::GetObjectDescriptionListResponse => 2,
        SdoInfoOpCode::GetObjectDescriptionRequest => 3,
        SdoInfoOpCode::GetObjectDescriptionResponse => 4,
        SdoInfoOpCode::GetEntryDescriptionRequest => 5,
        SdoInfoOpCode::GetEntryDescriptionResponse => 6,
        SdoInfoOpCode::SdoInfoErrorRequest => 7,
    }
}

impl SdoInfoOpCode {
    /// Decode an operation code from its seven bit value.
    pub fn from_bits(n: u8) -> (r: Option<Self>)
        ensures
            r == sdo_info_op_code_from_bits(n),
    {
        if n == 1 {
            Some(SdoInfoOpCode::GetObjectDescriptionListRequest)
        } else if n == 2 {
            Some(SdoInfoOpCode::GetObjectDescriptionListResponse)
        } else if n == 3 {
            Some(SdoInfoOpCode::GetObjectDescriptionRequest)
        } else if n == 4 {
            Some(SdoInfoOpCode::GetObjectDescriptionResponse)
        } else if n == 5 {
            Some(SdoInfoOpCode::GetEntryDescriptionRequest)
        } else if n == 6 {
            Some(SdoInfoOpCode::GetEntryDescriptionResponse)
        } else if n == 7 {
            Some(SdoInfoOpCode::SdoInfoErrorRequest)
        } else {
            None
        }
    }

    /// The seven bit value of this operation code.
    pub fn to_bits(&self) -> (r: u8)
        ensures
            r == sdo_info_op_code_to_bits(*self),
            1 <= r <= 7,
            sdo_info_op_code_from_bits(r) == Some(*self),
    {
        match self {
            SdoInfoOpCode::GetObjectDescriptionListRequest => 1,
            SdoInfoOpCode::GetObjectDescriptionListResponse => 2,
            SdoInfoOpCode::GetObjectDescriptionRequest => 3,
            SdoInfoOpCode::GetObjectDescriptionResponse => 4,
            SdoInfoOpCode::GetEntryDescriptionRequest => 5,
            SdoInfoOpCode::GetEntryDescriptionResponse => 6,
            SdoInfoOpCode::SdoInfoErrorRequest => 7,
        }
    }
}

/// SDO information header.
///
/// Bits 0-6 of byte 0 hold the operation code, bit 7 the incomplete flag; byte 1 is reserved and
/// bytes 2-3 hold the number of fragments left.
#[derive(PartialEq, Eq, Structural, Debug, Copy, Clone)]
pub struct SdoInfoHeader {
    /// Operation code.
    pub op_code: SdoInfoOpCode,
    /// More fragments follow.
    pub incomplete: bool,
    /// Number of fragments still to come.
    pub fragments_left: u16,
}

/// The SDO information header the first four bytes of `s` hold.
pub open spec fn spec_sdo_info_header_unpack(s: Seq<u8>) -> Result<SdoInfoHeader, WireError> {
    if s.len() < 4 {
        Err(WireError::ReadBufferTooShort)
    } else {
        match sdo_info_op_code_from_bits(s[0] % 128) {
            Some(op_code) => Ok(
                SdoInfoHeader {
                    op_code,
                    incomplete: s[0] / 128 == 1,
                    fragments_left: le_u16_at(s, 2),
                },
            ),
            None => Err(WireError::InvalidValue),
        }
    }
}

impl SdoInfoHeader {
    /// The four bytes this header packs into.
    pub open spec fn spec_pack(self) -> Seq<u8> {
        seq![
            (sdo_info_op_code_to_bits(self.op_code) as int + 128 * flag(self.incomplete)) as u8,
            0u8,
        ] + u16_le_bytes(self.fragments_left)
    }

    /// Pack into the four bytes sent on the wire.
    pub fn pack(&self) -> (r: [u8; 4])
        ensures
            r@ == self.spec_pack(),
    {
        let b0 = self.op_code.to_bits() + if self.incomplete { 128u8 } else { 0 };
        let f = u16_to_le(self.fragments_left);
        let r = [b0, 0u8, f[0], f[1]];
        assert(r@ =~= self.spec_pack());
        r
    }

    /// Unpack from the first four bytes of `buf`.
    pub fn unpack_from_slice(buf: &[u8]) -> (r: Result<Self, WireError>)
        ensures
            r == spec_sdo_info_header_unpack(buf@),
    {
        if buf.len() < 4 {
            return Err(WireError::ReadBufferTooShort);
        }
        match SdoInfoOpCode::from_bits(buf[0] % 128) {
            Some(op_code) => Ok(
                Self { op_code, incomplete: buf[0] / 128 == 1, fragments_left: read_u16(buf, 2) },
            ),
            None => Err(WireError::InvalidValue),
        }
    }
}

/// Unpacking a packed SDO information header gives it back.
pub proof fn lemma_sdo_info_header_roundtrip(h: SdoInfoHeader, rest: Seq<u8>)
    ensures
        spec_sdo_info_header_unpack(h.spec_pack() + rest) == Ok::<SdoInfoHeader, WireError>(h),
{
    let s = h.spec_pack() + rest;
    lemma_u16_roundtrip(h.fragments_left, seq![s[0], s[1]], rest);
    assert(seq![s[0], s[1]] + u16_le_bytes(h.fragments_left) + rest =~= s);
    assert(s[0] % 128 == sdo_info_op_code_to_bits(h.op_code));
}

/// Subindex access.
#[derive(PartialEq, Eq, Structural, Debug, Copy, Clone)]
pub enum SubIndex {
    /// Complete access.
    ///
    /// Accesses the entire entry as a single slice of data.
    Complete,
    /// Individual sub-index access.
    Index(u8),
}

impl SubIndex {
    /// Whether this is a complete access.
    pub fn complete_access(&self) -> (r: bool)
        ensures
            r == (*self is Complete),
    {
        match self {
            SubIndex::Complete => true,
            SubIndex::Index(_) => false,
        }
    }

    /// The subindex sent on the wire: complete access starts at subindex 1, as subindex 0 counts
    /// the number of subindices in the object.
    pub fn sub_index(&self) -> (r: u8)
        ensures
            r == match *self {
                SubIndex::Complete => 1u8,
                SubIndex::Index(idx) => idx,
            },
    {
        match self {
            SubIndex::Complete => 1,
            SubIndex::Index(idx) => *idx,
        }
    }
}

impl From<u8> for SubIndex {
    fn from(value: u8) -> (r: Self)
        ensures
            r == SubIndex::Index(value),
    {
        SubIndex::Index(value)
    }
}

impl vstd::std_specs::convert::FromSpecImpl<u8> for SubIndex {
    open spec fn obeys_from_spec() -> bool {
        true
    }

    open spec fn from_spec(v: u8) -> Self {
        SubIndex::Index(v)
    }
}

} // verus!
