//! CoE SDO request/response frames and the functions that build requests.
use vstd::prelude::*;
use crate::coe::{
    coe_command_to_bits, lemma_coe_header_roundtrip, lemma_init_sdo_header_roundtrip,
    lemma_sdo_info_header_roundtrip, lemma_segment_sdo_header_roundtrip, spec_coe_header_unpack,
    spec_init_sdo_header_unpack, spec_sdo_info_header_unpack, spec_segment_sdo_header_unpack,
    CoeCommand, CoeHeader, CoeService, InitSdoHeader, SdoInfoHeader, SdoInfoOpCode,
    SegmentSdoHeader, SubIndex,
};
use crate::mailbox::{
    lemma_mailbox_header_roundtrip, spec_mailbox_header_unpack, MailboxHeader, MailboxType,
    Priority,
};
use crate::wire::{le_u16_at, read_u16, WireError};

verus! {

/// The bytes of `buf` from `start` on.
pub fn tail(buf: &[u8], start: usize) -> (r: &[u8])
    requires
        start <= buf@.len(),
    ensures
        r@ == buf@.subrange(start as int, buf@.len() as int),
{
    vstd::slice::slice_subrange(buf, start, buf.len())
}

/// A normal SDO request or response with no additional payload.
///
/// These fields are common to non-segmented (i.e. "normal") SDO requests and responses: a mailbox
/// header, a CoE header and an SDO header, 12 bytes in all.
///
/// See ETG1000.6 Section 5.6.2 SDO.
#[derive(PartialEq, Eq, Structural, Debug, Copy, Clone)]
pub struct SdoNormal {
    /// Mailbox header.
    pub header: MailboxHeader,
    /// CoE header.
    pub coe_header: CoeHeader,
    /// SDO header.
    pub sdo_header: InitSdoHeader,
}

/// The normal SDO headers the first 12 bytes of `s` hold.
pub open spec fn spec_sdo_normal_unpack(s: Seq<u8>) -> Result<SdoNormal, WireError> {
    if s.len() < 12 {
        Err(WireError::ReadBufferTooShort)
    } else {
        match spec_mailbox_header_unpack(s) {
            Err(e) => Err(e),
            Ok(header) => match spec_coe_header_unpack(s.subrange(6, s.len() as int)) {
                Err(e) => Err(e),
                Ok(coe_header) => match spec_init_sdo_header_unpack(
                    s.subrange(8, s.len() as int),
                ) {
                    Err(e) => Err(e),
                    Ok(sdo_header) => Ok(SdoNormal { header, coe_header, sdo_header }),
                },
            },
        }
    }
}

impl SdoNormal {
    /// Every part can be represented on the wire.
    pub open spec fn wf(self) -> bool {
        self.header.wf() && self.coe_header.wf() && self.sdo_header.wf()
    }

    /// The 12 bytes these headers pack into.
    pub open spec fn spec_pack(self) -> Seq<u8> {
        self.header.spec_pack() + self.coe_header.spec_pack() + self.sdo_header.spec_pack()
    }

    /// Pack into the 12 bytes sent on the wire.
    pub fn pack(&self) -> (r: [u8; 12])
        ensures
            r@ == self.spec_pack(),
    {
        let h = self.header.pack();
        let c = self.coe_header.pack();
        let s = self.sdo_header.pack();
        let r = [h[0], h[1], h[2], h[3], h[4], h[5], c[0], c[1], s[0], s[1], s[2], s[3]];
        assert(r@ =~= self.spec_pack());
        r
    }

    /// Unpack from the first 12 bytes of `buf`.
    pub fn unpack_from_slice(buf: &[u8]) -> (r: Result<Self, WireError>)
        ensures
            r == spec_sdo_normal_unpack(buf@),
    {
        if buf.len() < 12 {
            return Err(WireError::ReadBufferTooShort);
        }
        let header = MailboxHeader::unpack_from_slice(buf)?;
        let coe_header = CoeHeader::unpack_from_slice(tail(buf, 6))?;
        let sdo_header = InitSdoHeader::unpack_from_slice(tail(buf, 8))?;
        Ok(Self { header, coe_header, sdo_header })
    }
}

/// Unpacking packed normal SDO headers gives them back.
pub proof fn lemma_sdo_normal_roundtrip(v: SdoNormal, rest: Seq<u8>)
    requires
        v.wf(),
    ensures
        spec_sdo_normal_unpack(v.spec_pack() + rest) == Ok::<SdoNormal, WireError>(v),
{
    let h = v.header.spec_pack();
    let c = v.coe_header.spec_pack();
    let d = v.sdo_header.spec_pack();
    let s = v.spec_pack() + rest;
    lemma_mailbox_header_roundtrip(v.header, c + d + rest);
    assert(h + (c + d + rest) =~= s);
    lemma_coe_header_roundtrip(v.coe_header, d + rest);
    assert(s.subrange(6, s.len() as int) =~= c + (d + rest));
    lemma_init_sdo_header_roundtrip(v.sdo_header, rest);
    assert(s.subrange(8, s.len() as int) =~= d + rest);
}

/// An expedited (data contained within SDO as opposed to sent in subsequent packets) SDO download
/// request: normal SDO headers followed by four data bytes.
#[derive(PartialEq, Eq, Debug, Copy, Clone)]
pub struct SdoExpeditedDownload {
    /// Request headers.
    pub headers: SdoNormal,
    /// Expedited data.
    pub data: [u8; 4],
}

/// The expedited download the first 16 bytes of `s` hold.
pub open spec fn spec_sdo_expedited_download_unpack(s: Seq<u8>) -> Result<
    SdoExpeditedDownload,
    WireError,
> {
    if s.len() < 16 {
        Err(WireError::ReadBufferTooShort)
    } else {
        match spec_sdo_normal_unpack(s) {
            Err(e) => Err(e),
            Ok(headers) => Ok(
                SdoExpeditedDownload { headers, data: [s[12], s[13], s[14], s[15]] },
            ),
        }
    }
}

impl SdoExpeditedDownload {
    /// The 16 bytes this request packs into.
    pub open spec fn spec_pack(self) -> Seq<u8> {
        self.headers.spec_pack() + self.data@
    }

    /// Pack into the 16 bytes sent on the wire.
    pub fn pack(&self) -> (r: [u8; 16])
        ensures
            r@ == self.spec_pack(),
    {
        let h = self.headers.pack();
        let d = self.data;
        let r = [
            h[0],
            h[1],
            h[2],
            h[3],
            h[4],
            h[5],
            h[6],
            h[7],
            h[8],
            h[9],
            h[10],
            h[11],
            d[0],
            d[1],
            d[2],
            d[3],
        ];
        assert(r@ =~= self.spec_pack());
        r
    }

    /// Unpack from the first 16 bytes of `buf`.
    pub fn unpack_from_slice(buf: &[u8]) -> (r: Result<Self, WireError>)
        ensures
            r == spec_sdo_expedited_download_unpack(buf@),
    {
        if buf.len() < 16 {
            return Err(WireError::ReadBufferTooShort);
        }
        let headers = SdoNormal::unpack_from_slice(buf)?;
        Ok(Self { headers, data: [buf[12], buf[13], buf[14], buf[15]] })
    }
}

/// Headers belonging to segmented SDO transfers: a mailbox header, a CoE header and a segment
/// header, 9 bytes in all.
#[derive(PartialEq, Eq, Structural, Debug, Copy, Clone)]
pub struct SdoSegmented {
    /// Mailbox header.
    pub header: MailboxHeader,
    /// CoE header.
    pub coe_header: CoeHeader,
    /// Segment header.
    pub sdo_header: SegmentSdoHeader,
}

/// The segmented SDO headers the first 9 bytes of `s` hold.
pub open spec fn spec_sdo_segmented_unpack(s: Seq<u8>) -> Result<SdoSegmented, WireError> {
    if s.len() < 9 {
        Err(WireError::ReadBufferTooShort)
    } else {
        match spec_mailbox_header_unpack(s) {
            Err(e) => Err(e),
            Ok(header) => match spec_coe_header_unpack(s.subrange(6, s.len() as int)) {
                Err(e) => Err(e),
                Ok(coe_header) => match spec_segment_sdo_header_unpack(
                    s.subrange(8, s.len() as int),
                ) {
                    Err(e) => Err(e),
                    Ok(sdo_header) => Ok(SdoSegmented { header, coe_header, sdo_header }),
                },
            },
        }
    }
}

impl SdoSegmented {
    /// Every part can be represented on the wire.
    pub open spec fn wf(self) -> bool {
        self.header.wf() && self.coe_header.wf() && self.sdo_header.wf()
    }

    /// The 9 bytes these headers pack into.
    pub open spec fn spec_pack(self) -> Seq<u8> {
        self.header.spec_pack() + self.coe_header.spec_pack() + self.sdo_header.spec_pack()
    }

    /// Pack into the 9 bytes sent on the wire.
    pub fn pack(&self) -> (r: [u8; 9])
        ensures
            r@ == self.spec_pack(),
    {
        let h = self.header.pack();
        let c = self.coe_header.pack();
        let s = self.sdo_header.pack();
        let r = [h[0], h[1], h[2], h[3], h[4], h[5], c[0], c[1], s[0]];
        assert(r@ =~= self.spec_pack());
        r
    }

    /// Unpack from the first 9 bytes of `buf`.
    pub fn unpack_from_slice(buf: &[u8]) -> (r: Result<Self, WireError>)
        ensures
            r == spec_sdo_segmented_unpack(buf@),
    {
        if buf.len() < 9 {
            return Err(WireError::ReadBufferTooShort);
        }
        let header = MailboxHeader::unpack_from_slice(buf)?;
        let coe_header = CoeHeader::unpack_from_slice(tail(buf, 6))?;
        let sdo_header = SegmentSdoHeader::unpack_from_slice(tail(buf, 8))?;
        Ok(Self { header, coe_header, sdo_header })
    }
}

/// Unpacking packed segmented SDO headers gives them back.
pub proof fn lemma_sdo_segmented_roundtrip(v: SdoSegmented, rest: Seq<u8>)
    requires
        v.wf(),
    ensures
        spec_sdo_segmented_unpack(v.spec_pack() + rest) == Ok::<SdoSegmented, WireError>(v),
{
    let h = v.header.spec_pack();
    let c = v.coe_header.spec_pack();
    let d = v.sdo_header.spec_pack();
    let s = v.spec_pack() + rest;
    lemma_mailbox_header_roundtrip(v.header, c + d + rest);
    assert(h + (c + d + rest) =~= s);
    lemma_coe_header_roundtrip(v.coe_header, d + rest);
    assert(s.subrange(6, s.len() as int) =~= c + (d + rest));
    lemma_segment_sdo_header_roundtrip(v.sdo_header, rest);
    assert(s.subrange(8, s.len() as int) =~= d + rest);
}

/// The list of objects an object description list request asks for, including the object
/// quantities. Held in a byte, sent as two bytes.
#[derive(PartialEq, Eq, Structural, Debug, Copy, Clone)]
pub enum ObjectDescriptionListQueryInner {
    /// Get number of objects in the 5 different lists.
    ObjectQuantities,
    /// All objects of the object dictionary.
    All,
    /// Objects which are mappable in an RxPDO.
    RxPdoMappable,
    /// Objects which are mappable in a TxPDO.
    TxPdoMappable,
    /// Objects which have to be stored for a device replacement.
    StoredForDeviceReplacement,
    /// Objects which can be used as startup parameter.
    StartupParameters,
}

/// The list type a number names, if any.
pub open spec fn list_query_inner_from_u8(n: u8) -> Option<ObjectDescriptionListQueryInner> {
    if n == 0 {
        Some(ObjectDescriptionListQueryInner::ObjectQuantities)
    } else if n == 1 {
        Some(ObjectDescriptionListQueryInner::All)
    } else if n == 2 {
        Some(ObjectDescriptionListQueryInner::RxPdoMappable)
    } else if n == 3 {
        Some(ObjectDescriptionListQueryInner::TxPdoMappable)
    } else if n == 4 {
        Some(ObjectDescriptionListQueryInner::StoredForDeviceReplacement)
    } else if n == 5 {
        Some(ObjectDescriptionListQueryInner::StartupParameters)
    } else {
        None
    }
}

/// The number of a list type.
pub open spec fn list_query_inner_to_u8(q: ObjectDescriptionListQueryInner) -> u8 {
    match q {
        ObjectDescriptionListQueryInner::ObjectQuantities => 0,
        ObjectDescriptionListQueryInner::All => 1,
        ObjectDescriptionListQueryInner::RxPdoMappable => 2,
        ObjectDescriptionListQueryInner::TxPdoMappable => 3,
        ObjectDescriptionListQueryInner::StoredForDeviceReplacement => 4,
        ObjectDescriptionListQueryInner::StartupParameters => 5,
    }
}

/// The list type the first two bytes of `s` hold.
pub open spec fn spec_list_query_inner_unpack(s: Seq<u8>) -> Result<
    ObjectDescriptionListQueryInner,
    WireError,
> {
    if s.len() < 2 {
        Err(WireError::ReadBufferTooShort)
    } else {
        match list_query_inner_from_u8(s[0]) {
            Some(q) => Ok(q),
            None => Err(WireError::InvalidValue),
        }
    }
}

impl ObjectDescriptionListQueryInner {
    /// Decode a list type from its number.
    pub fn from_u8(n: u8) -> (r: Option<Self>)
        ensures
            r == list_query_inner_from_u8(n),
    {
        if n == 0 {
            Some(ObjectDescriptionListQueryInner::ObjectQuantities)
        } else if n == 1 {
            Some(ObjectDescriptionListQueryInner::All)
        } else if n == 2 {
            Some(ObjectDescriptionListQueryInner::RxPdoMappable)
        } else if n == 3 {
            Some(ObjectDescriptionListQueryInner::TxPdoMappable)
        } else if n == 4 {
            Some(ObjectDescriptionListQueryInner::StoredForDeviceReplacement)
        } else if n == 5 {
            Some(ObjectDescriptionListQueryInner::StartupParameters)
        } else {
            None
        }
    }

    /// The number of this list type.
    pub fn to_u8(&self) -> (r: u8)
        ensures
            r == list_query_inner_to_u8(*self),
            list_query_inner_from_u8(r) == Some(*self),
    {
        match self {
            ObjectDescriptionListQueryInner::ObjectQuantities => 0,
            ObjectDescriptionListQueryInner::All => 1,
            ObjectDescriptionListQueryInner::RxPdoMappable => 2,
            ObjectDescriptionListQueryInner::TxPdoMappable => 3,
            ObjectDescriptionListQueryInner::StoredForDeviceReplacement => 4,
            ObjectDescriptionListQueryInner::StartupParameters => 5,
        }
    }

    /// The two bytes this list type packs into.
    pub open spec fn spec_pack(self) -> Seq<u8> {
        seq![list_query_inner_to_u8(self), 0u8]
    }

    /// Pack into the two bytes sent on the wire.
    pub fn pack(&self) -> (r: [u8; 2])
        ensures
            r@ == self.spec_pack(),
    {
        let r = [self.to_u8(), 0u8];
        assert(r@ =~= self.spec_pack());
        r
    }

    /// Unpack from the first two bytes of `buf`.
    pub fn unpack_from_slice(buf: &[u8]) -> (r: Result<Self, WireError>)
        ensures
            r == spec_list_query_inner_unpack(buf@),
    {
        if buf.len() < 2 {
            return Err(WireError::ReadBufferTooShort);
        }
        match Self::from_u8(buf[0]) {
            Some(q) => Ok(q),
            None => Err(WireError::InvalidValue),
        }
    }
}

/// The subset of indices of the object dictionary an object description list request asks for.
///
/// Defined in ETG.1000.6 §5.6.3.3.1. Object quantities are asked for through
/// [`get_object_quantities`].
#[derive(PartialEq, Eq, Structural, Debug, Copy, Clone)]
pub enum ObjectDescriptionListQuery {
    /// All objects of the object dictionary.
    All,
    /// Objects which are mappable in an RxPDO.
    RxPdoMappable,
    /// Objects which are mappable in a TxPDO.
    TxPdoMappable,
    /// Objects which have to be stored for a device replacement.
    StoredForDeviceReplacement,
    /// Objects which can be used as startup parameter.
    StartupParameters,
}

/// The list type a user query asks for.
pub open spec fn spec_query_inner(q: ObjectDescriptionListQuery) -> ObjectDescriptionListQueryInner {
    match q {
        ObjectDescriptionListQuery::All => ObjectDescriptionListQueryInner::All,
        ObjectDescriptionListQuery::RxPdoMappable => ObjectDescriptionListQueryInner::RxPdoMappable,
        ObjectDescriptionListQuery::TxPdoMappable => ObjectDescriptionListQueryInner::TxPdoMappable,
        ObjectDescriptionListQuery::StoredForDeviceReplacement =>
            ObjectDescriptionListQueryInner::StoredForDeviceReplacement,
        ObjectDescriptionListQuery::StartupParameters =>
            ObjectDescriptionListQueryInner::StartupParameters,
    }
}

impl ObjectDescriptionListQuery {
    /// A human readable name of this query.
    pub fn name(&self) -> (r: &'static str)
        ensures
            r@ == match *self {
                ObjectDescriptionListQuery::All => "All"@,
                ObjectDescriptionListQuery::RxPdoMappable => "RxPDO-Mappable"@,
                ObjectDescriptionListQuery::TxPdoMappable => "TxPDO-Mappable"@,
                ObjectDescriptionListQuery::StoredForDeviceReplacement =>
                    "Stored for Device Replacement"@,
                ObjectDescriptionListQuery::StartupParameters => "Startup Parameters"@,
            },
    {
        match self {
            ObjectDescriptionListQuery::All => "All",
            ObjectDescriptionListQuery::RxPdoMappable => "RxPDO-Mappable",
            ObjectDescriptionListQuery::TxPdoMappable => "TxPDO-Mappable",
            ObjectDescriptionListQuery::StoredForDeviceReplacement =>
                "Stored for Device Replacement",
            ObjectDescriptionListQuery::StartupParameters => "Startup Parameters",
        }
    }
}

impl From<ObjectDescriptionListQuery> for ObjectDescriptionListQueryInner {
    fn from(user: ObjectDescriptionListQuery) -> (r: Self)
        ensures
            r == spec_query_inner(user),
    {
        match user {
            ObjectDescriptionListQuery::All => ObjectDescriptionListQueryInner::All,
            ObjectDescriptionListQuery::RxPdoMappable =>
                ObjectDescriptionListQueryInner::RxPdoMappable,
            ObjectDescriptionListQuery::TxPdoMappable =>
                ObjectDescriptionListQueryInner::TxPdoMappable,
            ObjectDescriptionListQuery::StoredForDeviceReplacement =>
                ObjectDescriptionListQueryInner::StoredForDeviceReplacement,
            ObjectDescriptionListQuery::StartupParameters =>
                ObjectDescriptionListQueryInner::StartupParameters,
        }
    }
}

impl vstd::std_specs::convert::FromSpecImpl<ObjectDescriptionListQuery> for
    ObjectDescriptionListQueryInner {
    open spec fn obeys_from_spec() -> bool {
        true
    }

    open spec fn from_spec(v: ObjectDescriptionListQuery) -> Self {
        spec_query_inner(v)
    }
}

/// How many CoE objects on a SubDevice are of each [`ObjectDescriptionListQuery`].
#[derive(PartialEq, Eq, Structural, Debug, Copy, Clone)]
pub struct ObjectDescriptionListQueryCounts {
    /// How many are of type [`ObjectDescriptionListQuery::All`].
    pub all: u16,
    /// How many are of type [`ObjectDescriptionListQuery::RxPdoMappable`].
    pub rx_pdo_mappable: u16,
    /// How many are of type [`ObjectDescriptionListQuery::TxPdoMappable`].
    pub tx_pdo_mappable: u16,
    /// How many are of type [`ObjectDescriptionListQuery::StoredForDeviceReplacement`].
    pub stored_for_device_replacement: u16,
    /// How many are of type [`ObjectDescriptionListQuery::StartupParameters`].
    pub startup_parameters: u16,
}

/// Packed length of [`ObjectDescriptionListQueryCounts`]: five little-endian `u16`s.
pub const QUERY_COUNTS_LEN: usize = 10;

impl ObjectDescriptionListQueryCounts {
    /// Unpack from the first ten bytes of `buf`: the counts of all, RxPDO-mappable,
    /// TxPDO-mappable, stored for device replacement and startup parameter objects, in order.
    pub fn unpack_from_slice(buf: &[u8]) -> (r: Result<Self, WireError>)
        ensures
            buf@.len() < QUERY_COUNTS_LEN ==> r == Err::<Self, WireError>(
                WireError::ReadBufferTooShort,
            ),
            buf@.len() >= QUERY_COUNTS_LEN ==> r == Ok::<Self, WireError>(
                ObjectDescriptionListQueryCounts {
                    all: le_u16_at(buf@, 0),
                    rx_pdo_mappable: le_u16_at(buf@, 2),
                    tx_pdo_mappable: le_u16_at(buf@, 4),
                    stored_for_device_replacement: le_u16_at(buf@, 6),
                    startup_parameters: le_u16_at(buf@, 8),
                },
            ),
    {
        if buf.len() < QUERY_COUNTS_LEN {
            return Err(WireError::ReadBufferTooShort);
        }
        Ok(
            ObjectDescriptionListQueryCounts {
                all: read_u16(buf, 0),
                rx_pdo_mappable: read_u16(buf, 2),
                tx_pdo_mappable: read_u16(buf, 4),
                stored_for_device_replacement: read_u16(buf, 6),
                startup_parameters: read_u16(buf, 8),
            },
        )
    }
}

/// Object description list request, defined in ETG.1000.6 §5.6.3.3.1: a mailbox header, a CoE
/// header, an SDO information header and the list type, 14 bytes in all.
#[derive(PartialEq, Eq, Structural, Debug, Copy, Clone)]
pub struct ObjectDescriptionListRequest {
    /// Mailbox header.
    pub mailbox: MailboxHeader,
    /// CoE header.
    pub coe_header: CoeHeader,
    /// SDO information header.
    pub sdo_info_header: SdoInfoHeader,
    /// Requested list.
    pub list_type: ObjectDescriptionListQueryInner,
}

/// The object description list request the first 14 bytes of `s` hold.
pub open spec fn spec_list_request_unpack(s: Seq<u8>) -> Result<
    ObjectDescriptionListRequest,
    WireError,
> {
    if s.len() < 14 {
        Err(WireError::ReadBufferTooShort)
    } else {
        match spec_mailbox_header_unpack(s) {
            Err(e) => Err(e),
            Ok(mailbox) => match spec_coe_header_unpack(s.subrange(6, s.len() as int)) {
                Err(e) => Err(e),
                Ok(coe_header) => match spec_sdo_info_header_unpack(
                    s.subrange(8, s.len() as int),
                ) {
                    Err(e) => Err(e),
                    Ok(sdo_info_header) => match spec_list_query_inner_unpack(
                        s.subrange(12, s.len() as int),
                    ) {
                        Err(e) => Err(e),
                        Ok(list_type) => Ok(
                            ObjectDescriptionListRequest {
                                mailbox,
                                coe_header,
                                sdo_info_header,
                                list_type,
                            },
                        ),
                    },
                },
            },
        }
    }
}

impl ObjectDescriptionListRequest {
    /// Every part can be represented on the wire.
    pub open spec fn wf(self) -> bool {
        self.mailbox.wf() && self.coe_header.wf()
    }

    /// The 14 bytes this request packs into.
    pub open spec fn spec_pack(self) -> Seq<u8> {
        self.mailbox.spec_pack() + self.coe_header.spec_pack() + self.sdo_info_header.spec_pack()
            + self.list_type.spec_pack()
    }

    /// Pack into the 14 bytes sent on the wire.
    pub fn pack(&self) -> (r: [u8; 14])
        ensures
            r@ == self.spec_pack(),
    {
        let h = self.mailbox.pack();
        let c = self.coe_header.pack();
        let s = self.sdo_info_header.pack();
        let l = self.list_type.pack();
        let r = [h[0], h[1], h[2], h[3], h[4], h[5], c[0], c[1], s[0], s[1], s[2], s[3], l[0], l[1]];
        assert(r@ =~= self.spec_pack());
        r
    }

    /// Unpack from the first 14 bytes of `buf`.
    pub fn unpack_from_slice(buf: &[u8]) -> (r: Result<Self, WireError>)
        ensures
            r == spec_list_request_unpack(buf@),
    {
        if buf.len() < 14 {
            return Err(WireError::ReadBufferTooShort);
        }
        let mailbox = MailboxHeader::unpack_from_slice(buf)?;
        let coe_header = CoeHeader::unpack_from_slice(tail(buf, 6))?;
        let sdo_info_header = SdoInfoHeader::unpack_from_slice(tail(buf, 8))?;
        let list_type = ObjectDescriptionListQueryInner::unpack_from_slice(tail(buf, 12))?;
        Ok(Self { mailbox, coe_header, sdo_info_header, list_type })
    }
}

/// Unpacking a packed object description list request gives it back.
pub proof fn lemma_list_request_roundtrip(v: ObjectDescriptionListRequest, rest: Seq<u8>)
    requires
        v.wf(),
    ensures
        spec_list_request_unpack(v.spec_pack() + rest) == Ok::<
            ObjectDescriptionListRequest,
            WireError,
        >(v),
{
    let h = v.mailbox.spec_pack();
    let c = v.coe_header.spec_pack();
    let d = v.sdo_info_header.spec_pack();
    let l = v.list_type.spec_pack();
    let s = v.spec_pack() + rest;
    lemma_mailbox_header_roundtrip(v.mailbox, c + d + l + rest);
    assert(h + (c + d + l + rest) =~= s);
    lemma_coe_header_roundtrip(v.coe_header, d + l + rest);
    assert(s.subrange(6, s.len() as int) =~= c + (d + l + rest));
    lemma_sdo_info_header_roundtrip(v.sdo_info_header, l + rest);
    assert(s.subrange(8, s.len() as int) =~= d + (l + rest));
    assert(s.subrange(12, s.len() as int) =~= l + rest);
}

/// Object description list response headers, defined in ETG.1000.6 §5.6.3.3.2: a mailbox header,
/// a CoE header and an SDO information header, 12 bytes in all.
#[derive(PartialEq, Eq, Structural, Debug, Copy, Clone)]
pub struct ObjectDescriptionListResponse {
    /// Mailbox header.
    pub mailbox: MailboxHeader,
    /// CoE header.
    pub coe_header: CoeHeader,
    /// SDO information header.
    pub sdo_info_header: SdoInfoHeader,
}

/// The object description list response headers the first 12 bytes of `s` hold.
pub open spec fn spec_list_response_unpack(s: Seq<u8>) -> Result<
    ObjectDescriptionListResponse,
    WireError,
> {
    if s.len() < 12 {
        Err(WireError::ReadBufferTooShort)
    } else {
        match spec_mailbox_header_unpack(s) {
            Err(e) => Err(e),
            Ok(mailbox) => match spec_coe_header_unpack(s.subrange(6, s.len() as int)) {
                Err(e) => Err(e),
                Ok(coe_header) => match spec_sdo_info_header_unpack(
                    s.subrange(8, s.len() as int),
                ) {
                    Err(e) => Err(e),
                    Ok(sdo_info_header) => Ok(
                        ObjectDescriptionListResponse { mailbox, coe_header, sdo_info_header },
                    ),
                },
            },
        }
    }
}

impl ObjectDescriptionListResponse {
    /// The 12 bytes these headers pack into.
    pub open spec fn spec_pack(self) -> Seq<u8> {
        self.mailbox.spec_pack() + self.coe_header.spec_pack() + self.sdo_info_header.spec_pack()
    }

    /// Pack into the 12 bytes sent on the wire.
    pub fn pack(&self) -> (r: [u8; 12])
        ensures
            r@ == self.spec_pack(),
    {
        let h = self.mailbox.pack();
        let c = self.coe_header.pack();
        let s = self.sdo_info_header.pack();
        let r = [h[0], h[1], h[2], h[3], h[4], h[5], c[0], c[1], s[0], s[1], s[2], s[3]];
        assert(r@ =~= self.spec_pack());
        r
    }

    /// Unpack from the first 12 bytes of `buf`.
    pub fn unpack_from_slice(buf: &[u8]) -> (r: Result<Self, WireError>)
        ensures
            r == spec_list_response_unpack(buf@),
    {
        if buf.len() < 12 {
            return Err(WireError::ReadBufferTooShort);
        }
        let mailbox = MailboxHeader::unpack_from_slice(buf)?;
        let coe_header = CoeHeader::unpack_from_slice(tail(buf, 6))?;
        let sdo_info_header = SdoInfoHeader::unpack_from_slice(tail(buf, 8))?;
        Ok(Self { mailbox, coe_header, sdo_info_header })
    }
}

/// Decides whether a received SDO response answers a request.
pub trait CoeServiceRequest: Sized {
    /// The request (or response) the bytes `s` begin with.
    spec fn spec_unpack_response(s: Seq<u8>) -> Result<Self, WireError>;

    /// Unpack a response of this shape from the start of `buf`.
    fn unpack_response(buf: &[u8]) -> (r: Result<Self, WireError>)
        ensures
            r == Self::spec_unpack_response(buf@),
    ;

    /// Whether a response with the given index and subindex answers this request.
    spec fn spec_validate_response(&self, received_index: u16, received_subindex: u8) -> bool;

    /// Whether a response with the given index and subindex answers this request.
    fn validate_response(&self, received_index: u16, received_subindex: u8) -> (r: bool)
        ensures
            r == self.spec_validate_response(received_index, received_subindex),
    ;
}

impl CoeServiceRequest for SdoExpeditedDownload {
    open spec fn spec_unpack_response(s: Seq<u8>) -> Result<Self, WireError> {
        spec_sdo_expedited_download_unpack(s)
    }

    fn unpack_response(buf: &[u8]) -> (r: Result<Self, WireError>) {
        SdoExpeditedDownload::unpack_from_slice(buf)
    }

    open spec fn spec_validate_response(&self, received_index: u16, received_subindex: u8) -> bool {
        received_index == self.headers.sdo_header.index && received_subindex
            == self.headers.sdo_header.sub_index
    }

    fn validate_response(&self, received_index: u16, received_subindex: u8) -> (r: bool) {
        received_index == self.headers.sdo_header.index && received_subindex
            == self.headers.sdo_header.sub_index
    }
}

impl CoeServiceRequest for SdoNormal {
    open spec fn spec_unpack_response(s: Seq<u8>) -> Result<Self, WireError> {
        spec_sdo_normal_unpack(s)
    }

    fn unpack_response(buf: &[u8]) -> (r: Result<Self, WireError>) {
        SdoNormal::unpack_from_slice(buf)
    }

    open spec fn spec_validate_response(&self, received_index: u16, received_subindex: u8) -> bool {
        received_index == self.sdo_header.index && received_subindex == self.sdo_header.sub_index
    }

    fn validate_response(&self, received_index: u16, received_subindex: u8) -> (r: bool) {
        received_index == self.sdo_header.index && received_subindex == self.sdo_header.sub_index
    }
}

impl CoeServiceRequest for SdoSegmented {
    open spec fn spec_unpack_response(s: Seq<u8>) -> Result<Self, WireError> {
        spec_sdo_segmented_unpack(s)
    }

    fn unpack_response(buf: &[u8]) -> (r: Result<Self, WireError>) {
        SdoSegmented::unpack_from_slice(buf)
    }

    /// A segment carries no index to check against, so every response is valid.
    open spec fn spec_validate_response(&self, received_index: u16, received_subindex: u8) -> bool {
        true
    }

    fn validate_response(&self, _received_index: u16, _received_subindex: u8) -> (r: bool) {
        true
    }
}

/// The mailbox header of a CoE request from the MainDevice.
pub open spec fn request_mailbox(length: u16, counter: u8) -> MailboxHeader {
    MailboxHeader {
        length,
        address: 0,
        priority: Priority::Lowest,
        mailbox_type: MailboxType::Coe,
        counter,
    }
}

/// Build an expedited SDO download request carrying up to four bytes of data.
pub fn download(counter: u8, index: u16, access: SubIndex, data: [u8; 4], len: u8) -> (r:
    SdoExpeditedDownload)
    ensures
        r == (SdoExpeditedDownload {
            headers: SdoNormal {
                header: request_mailbox(0x0a, counter),
                coe_header: CoeHeader { number: 0, service: CoeService::SdoRequest },
                sdo_header: InitSdoHeader {
                    size_indicator: true,
                    expedited_transfer: true,
                    size: if len >= 4 { 0 } else { (4 - len) as u8 },
                    complete_access: access is Complete,
                    command: CoeCommand::DownloadRequest,
                    index,
                    sub_index: match access {
                        SubIndex::Complete => 1u8,
                        SubIndex::Index(i) => i,
                    },
                },
            },
            data,
        }),
{
    SdoExpeditedDownload {
        headers: SdoNormal {
            header: MailboxHeader {
                length: 0x0a,
                address: 0,
                priority: Priority::Lowest,
                mailbox_type: MailboxType::Coe,
                counter,
            },
            coe_header: CoeHeader { number: 0, service: CoeService::SdoRequest },
            sdo_header: InitSdoHeader {
                size_indicator: true,
                expedited_transfer: true,
                size: 4u8.saturating_sub(len),
                complete_access: access.complete_access(),
                command: CoeCommand::DownloadRequest,
                index,
                sub_index: access.sub_index(),
            },
        },
        data,
    }
}

/// Build a request for the next segment of a segmented SDO upload.
pub fn upload_segmented(counter: u8, toggle: bool) -> (r: SdoSegmented)
    ensures
        r == (SdoSegmented {
            header: request_mailbox(0x0a, counter),
            coe_header: CoeHeader { number: 0, service: CoeService::SdoRequest },
            sdo_header: SegmentSdoHeader {
                is_last_segment: false,
                segment_data_size: 0,
                toggle,
                command: CoeCommand::UploadSegmentRequest,
            },
        }),
{
    SdoSegmented {
        header: MailboxHeader {
            length: 0x0a,
            address: 0,
            priority: Priority::Lowest,
            mailbox_type: MailboxType::Coe,
            counter,
        },
        coe_header: CoeHeader { number: 0, service: CoeService::SdoRequest },
        sdo_header: SegmentSdoHeader {
            // False/0 when sending
            is_last_segment: false,
            segment_data_size: 0,
            toggle,
            command: CoeCommand::UploadSegmentRequest,
        },
    }
}

/// Build an SDO upload request.
pub fn upload(counter: u8, index: u16, access: SubIndex) -> (r: SdoNormal)
    ensures
        r == (SdoNormal {
            header: request_mailbox(0x0a, counter),
            coe_header: CoeHeader { number: 0, service: CoeService::SdoRequest },
            sdo_header: InitSdoHeader {
                size_indicator: false,
                expedited_transfer: false,
                size: 0,
                complete_access: access is Complete,
                command: CoeCommand::UploadRequest,
                index,
                sub_index: match access {
                    SubIndex::Complete => 1u8,
                    SubIndex::Index(i) => i,
                },
            },
        }),
{
    SdoNormal {
        header: MailboxHeader {
            length: 0x0a,
            address: 0,
            priority: Priority::Lowest,
            mailbox_type: MailboxType::Coe,
            counter,
        },
        coe_header: CoeHeader { number: 0, service: CoeService::SdoRequest },
        sdo_header: InitSdoHeader {
            size_indicator: false,
            expedited_transfer: false,
            size: 0,
            complete_access: access.complete_access(),
            command: CoeCommand::UploadRequest,
            index,
            sub_index: access.sub_index(),
        },
    }
}

/// The object description list request asking for a given list.
pub open spec fn spec_list_request(counter: u8, list_type: ObjectDescriptionListQueryInner) -> ObjectDescriptionListRequest {
    ObjectDescriptionListRequest {
        mailbox: request_mailbox(0x08, counter),
        coe_header: CoeHeader { number: 0, service: CoeService::SdoInformation },
        sdo_info_header: SdoInfoHeader {
            op_code: SdoInfoOpCode::GetObjectDescriptionListRequest,
            incomplete: false,
            fragments_left: 0,
        },
        list_type,
    }
}

/// Build a request for the object description list of the given kind.
pub fn get_object_description_list(counter: u8, list_type: ObjectDescriptionListQuery) -> (r:
    ObjectDescriptionListRequest)
    ensures
        r == spec_list_request(counter, spec_query_inner(list_type)),
{
    ObjectDescriptionListRequest {
        mailbox: MailboxHeader {
            length: 0x08,
            address: 0,
            priority: Priority::Lowest,
            mailbox_type: MailboxType::Coe,
            counter,
        },
        coe_header: CoeHeader { number: 0, service: CoeService::SdoInformation },
        sdo_info_header: SdoInfoHeader {
            op_code: SdoInfoOpCode::GetObjectDescriptionListRequest,
            incomplete: false,
            fragments_left: 0,
        },
        list_type: list_type.into(),
    }
}

/// Build a request for the number of objects in each object description list.
pub fn get_object_quantities(counter: u8) -> (r: ObjectDescriptionListRequest)
    ensures
        r == spec_list_request(counter, ObjectDescriptionListQueryInner::ObjectQuantities),
{
    ObjectDescriptionListRequest {
        mailbox: MailboxHeader {
            length: 0x08,
            address: 0,
            priority: Priority::Lowest,
            mailbox_type: MailboxType::Coe,
            counter,
        },
        coe_header: CoeHeader { number: 0, service: CoeService::SdoInformation },
        sdo_info_header: SdoInfoHeader {
            op_code: SdoInfoOpCode::GetObjectDescriptionListRequest,
            incomplete: false,
            fragments_left: 0,
        },
        list_type: ObjectDescriptionListQueryInner::ObjectQuantities,
    }
}

} // verus!
