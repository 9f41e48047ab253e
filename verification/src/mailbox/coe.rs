//! CoE (CANopen over EtherCAT) mailbox exchanges.
//!
//! An exchange alternates network reads and writes with decisions. The decisions live here, as
//! functions from what was read to what to do next; whoever owns the network performs the reads
//! and writes in between.
use vstd::prelude::*;
use crate::coe::abort_code::{abort_code_from_u32, AbortCode};
use crate::coe::services::{
    download, request_mailbox, spec_list_response_unpack, tail, CoeServiceRequest,
    ObjectDescriptionListResponse, SdoExpeditedDownload, SdoNormal, SdoSegmented,
};
use crate::coe::{
    coe_command_from_bits, spec_coe_header_unpack, CoeCommand, CoeHeader, CoeService,
    SdoInfoOpCode, SubIndex,
};
use crate::collections::{info_payload, info_payload_extend, info_payload_new};
use crate::error::{Error, Item, MailboxError};
use crate::mailbox::{spec_mailbox_header_unpack, MailboxHeader, MailboxType};
use crate::wire::{bytes_to_vec, le_u16_at, le_u32_at, read_u16, read_u32, WireError};
use vstd::slice::slice_subrange;

verus! {

/// A mailbox of a SubDevice: its address, its length and the sync manager that guards it.
#[derive(Debug, Copy, Clone, PartialEq, Eq, Structural)]
pub struct Mailbox {
    /// Start address.
    pub address: u16,
    /// Length in bytes.
    pub len: u16,
    /// Index of the guarding sync manager.
    pub sync_manager: u8,
}

/// The mailboxes a SubDevice was configured with.
#[derive(Debug, Copy, Clone, PartialEq, Eq, Structural)]
pub struct MailboxConfig {
    /// The mailbox the MainDevice reads responses from.
    pub read: Option<Mailbox>,
    /// The mailbox the MainDevice writes requests to.
    pub write: Option<Mailbox>,
    /// Whether the SubDevice supports complete access.
    pub complete_access: bool,
}

/// CoE access to one SubDevice.
#[derive(Debug, Copy, Clone, PartialEq, Eq, Structural)]
pub struct Coe {
    /// The SubDevice's configured address.
    pub configured_address: u16,
    /// The SubDevice's mailboxes.
    pub mailbox: MailboxConfig,
}

/// What to do after reading the status of the SubDevice's out mailbox while emptying it.
#[derive(Debug, Copy, Clone, PartialEq, Eq, Structural)]
pub enum ClearStep {
    /// The mailbox is empty: go on to wait for the in mailbox.
    Done,
    /// The mailbox is full: read it whole to empty it, wait one loop tick afterwards if
    /// `delay`, then read the status again if `retry`, else go on.
    Clear {
        /// Wait one loop tick after emptying.
        delay: bool,
        /// Read the status again afterwards.
        retry: bool,
    },
}

/// How many times the out mailbox status is read before going on regardless.
pub const CLEAR_ATTEMPTS: u8 = 10;

impl Coe {
    /// CoE access to the SubDevice with the given address and mailboxes.
    pub fn new(configured_address: u16, mailbox: MailboxConfig) -> (r: Self)
        ensures
            r.configured_address == configured_address,
            r.mailbox == mailbox,
    {
        Coe { configured_address, mailbox }
    }

    /// The read and write mailboxes. A missing write mailbox is reported first, as
    /// [`MailboxError::NoReadMailbox`], then a missing read mailbox, as
    /// [`MailboxError::NoWriteMailbox`].
    pub fn mailboxes(&self) -> (r: Result<(Mailbox, Mailbox), Error>)
        ensures
            match (self.mailbox.read, self.mailbox.write) {
                (Some(rd), Some(w)) => r == Ok::<(Mailbox, Mailbox), Error>((rd, w)),
                (_, None) => r == Err::<(Mailbox, Mailbox), Error>(
                    Error::Mailbox(MailboxError::NoReadMailbox),
                ),
                (None, Some(_)) => r == Err::<(Mailbox, Mailbox), Error>(
                    Error::Mailbox(MailboxError::NoWriteMailbox),
                ),
            },
    {
        let write_mailbox = match self.mailbox.write {
            Some(m) => m,
            None => {
                return Err(Error::Mailbox(MailboxError::NoReadMailbox));
            },
        };
        let read_mailbox = match self.mailbox.read {
            Some(m) => m,
            None => {
                return Err(Error::Mailbox(MailboxError::NoWriteMailbox));
            },
        };
        Ok((read_mailbox, write_mailbox))
    }

    /// Decide what follows reading the out mailbox status at the given attempt (from 0).
    pub fn out_mailbox_clear_step(attempt: u8, mailbox_full: bool) -> (r: ClearStep)
        requires
            attempt < CLEAR_ATTEMPTS,
        ensures
            !mailbox_full ==> r == ClearStep::Done,
            mailbox_full ==> r == (ClearStep::Clear {
                delay: attempt > 0,
                retry: attempt + 1 < CLEAR_ATTEMPTS,
            }),
    {
        if mailbox_full {
            ClearStep::Clear { delay: attempt > 0, retry: attempt + 1 < CLEAR_ATTEMPTS }
        } else {
            ClearStep::Done
        }
    }
}

/// Packed length of the common response headers.
pub const HEADERS_RAW_LEN: usize = 12;

/// The headers at the start of every CoE mailbox response: mailbox header, CoE header, the
/// command specifier in the top three bits of byte 8 and, for SDO responses and aborts, the
/// index (bytes 9-10) and subindex (byte 11).
#[derive(Debug, Copy, Clone, PartialEq, Eq, Structural)]
pub struct HeadersRaw {
    /// Mailbox header.
    pub header: MailboxHeader,
    /// CoE header.
    pub coe_header: CoeHeader,
    /// Command specifier.
    pub command: CoeCommand,
    /// Object index.
    pub address: u16,
    /// Object subindex.
    pub sub_index: u8,
}

/// The response headers the first twelve bytes of `s` hold.
pub open spec fn spec_headers_raw_unpack(s: Seq<u8>) -> Result<HeadersRaw, WireError> {
    if s.len() < HEADERS_RAW_LEN {
        Err(WireError::ReadBufferTooShort)
    } else {
        match spec_mailbox_header_unpack(s) {
            Err(e) => Err(e),
            Ok(header) => match spec_coe_header_unpack(s.subrange(6, s.len() as int)) {
                Err(e) => Err(e),
                Ok(coe_header) => match coe_command_from_bits(s[8] / 32) {
                    None => Err(WireError::InvalidValue),
                    Some(command) => Ok(
                        HeadersRaw {
                            header,
                            coe_header,
                            command,
                            address: le_u16_at(s, 9),
                            sub_index: s[11],
                        },
                    ),
                },
            },
        }
    }
}

/// Where the response headers sit: the object index in bytes 9 and 10, little-endian, the
/// subindex in byte 11 and the command specifier in the top three bits of byte 8. Bytes after
/// the twelfth play no part.
pub proof fn lemma_headers_raw_layout(s: Seq<u8>, t: Seq<u8>)
    ensures
        spec_headers_raw_unpack(s) matches Ok(h) ==> {
            &&& s.len() >= 12
            &&& h.address == s[9] + 256 * s[10]
            &&& h.sub_index == s[11]
            &&& coe_command_from_bits(s[8] / 32) == Some(h.command)
        },
        s.len() >= 12 && t.len() >= 12 && s.subrange(0, 12) == t.subrange(0, 12)
            ==> spec_headers_raw_unpack(s) == spec_headers_raw_unpack(t),
{
    if s.len() >= 12 && t.len() >= 12 && s.subrange(0, 12) == t.subrange(0, 12) {
        assert forall|k: int| 0 <= k < 12 implies s[k] == t[k] by {
            assert(s.subrange(0, 12)[k] == t.subrange(0, 12)[k]);
        }
        assert(s[0] == t[0] && s[1] == t[1] && s[2] == t[2] && s[3] == t[3]);
        assert(s[4] == t[4] && s[5] == t[5] && s[6] == t[6] && s[7] == t[7]);
        assert(s[8] == t[8] && s[9] == t[9] && s[10] == t[10] && s[11] == t[11]);
        let s6 = s.subrange(6, s.len() as int);
        let t6 = t.subrange(6, t.len() as int);
        assert(s6[0] == t6[0] && s6[1] == t6[1]);
        assert(spec_coe_header_unpack(s6) == spec_coe_header_unpack(t6));
        assert(spec_mailbox_header_unpack(s) == spec_mailbox_header_unpack(t));
    }
}

impl HeadersRaw {
    /// Unpack from the first twelve bytes of `buf`.
    pub fn unpack_from_slice(buf: &[u8]) -> (r: Result<Self, WireError>)
        ensures
            r == spec_headers_raw_unpack(buf@),
    {
        if buf.len() < HEADERS_RAW_LEN {
            return Err(WireError::ReadBufferTooShort);
        }
        let header = MailboxHeader::unpack_from_slice(buf)?;
        let coe_header = CoeHeader::unpack_from_slice(tail(buf, 6))?;
        let command = match CoeCommand::from_bits(buf[8] / 32) {
            Some(c) => c,
            None => {
                return Err(WireError::InvalidValue);
            },
        };
        Ok(HeadersRaw { header, coe_header, command, address: read_u16(buf, 9), sub_index: buf[11] })
    }
}

/// The response `s` carries a CoE emergency message.
pub open spec fn is_emergency(s: Seq<u8>) -> bool {
    spec_headers_raw_unpack(s) matches Ok(h) && h.coe_header.service == CoeService::Emergency
}

/// The outcome of a mailbox exchange whose request was `request` and whose response is `s`:
/// an abort gives its code, a response of another protocol or to another object is invalid, and
/// anything else is unpacked as a response of the request's shape, with the data after the
/// headers.
pub open spec fn spec_interpret_response<R: CoeServiceRequest>(request: R, s: Seq<u8>) -> Result<
    (R, Seq<u8>),
    Error,
> {
    match spec_headers_raw_unpack(s) {
        Err(e) => Err(Error::Wire(e)),
        Ok(h) => if h.command == CoeCommand::AbortRequest {
            if s.len() < HEADERS_RAW_LEN + 4 {
                Err(Error::Wire(WireError::ReadBufferTooShort))
            } else {
                match abort_code_from_u32(le_u32_at(s, 12)) {
                    None => Err(Error::Wire(WireError::InvalidValue)),
                    Some(code) => Err(
                        Error::Mailbox(
                            MailboxError::Aborted { code, address: h.address, sub_index: h.sub_index },
                        ),
                    ),
                }
            }
        } else if h.header.mailbox_type != MailboxType::Coe || !request.spec_validate_response(
            h.address,
            h.sub_index,
        ) {
            Err(
                Error::Mailbox(
                    MailboxError::SdoResponseInvalid { address: h.address, sub_index: h.sub_index },
                ),
            )
        } else {
            match R::spec_unpack_response(s) {
                Err(e) => Err(Error::Wire(e)),
                Ok(r) => Ok((r, s.subrange(HEADERS_RAW_LEN as int, s.len() as int))),
            }
        },
    }
}

/// An abort answers any request with the abort code in bytes 12 to 15, little-endian, for the
/// object named in the headers; an unknown code is refused as an invalid value.
pub proof fn lemma_abort_response<R: CoeServiceRequest>(request: R, s: Seq<u8>)
    ensures
        spec_headers_raw_unpack(s) matches Ok(h) && h.command == CoeCommand::AbortRequest
            && s.len() >= 16 ==> {
            let word = s[12] + 256 * s[13] + 65536 * s[14] + 16777216 * s[15];
            &&& 0 <= word <= u32::MAX
            &&& spec_interpret_response(request, s) == match abort_code_from_u32(word as u32) {
                None => Err::<(R, Seq<u8>), Error>(Error::Wire(WireError::InvalidValue)),
                Some(code) => Err(
                    Error::Mailbox(
                        MailboxError::Aborted {
                            code,
                            address: (s[9] + 256 * s[10]) as u16,
                            sub_index: s[11],
                        },
                    ),
                ),
            }
        },
{
    lemma_headers_raw_layout(s, s);
}

/// Interpret the response read back after sending `request`.
///
/// An emergency response is left out: it is rejected before this is called.
pub fn interpret_response<'a, R: CoeServiceRequest>(request: &R, response: &'a [u8]) -> (r: Result<
    (R, &'a [u8]),
    Error,
>)
    requires
        !is_emergency(response@),
    ensures
        match (r, spec_interpret_response(*request, response@)) {
            (Ok((a, d)), Ok((b, e))) => a == b && d@ == e,
            (Err(a), Err(b)) => a == b,
            _ => false,
        },
{
    let headers = match HeadersRaw::unpack_from_slice(response) {
        Ok(h) => h,
        Err(e) => {
            return Err(Error::Wire(e));
        },
    };
    if headers.command == CoeCommand::AbortRequest {
        // ETG 1000.6 5.6.2.7.1 Table 40
        if response.len() < HEADERS_RAW_LEN + 4 {
            return Err(Error::Wire(WireError::ReadBufferTooShort));
        }
        match AbortCode::try_from_u32(read_u32(response, HEADERS_RAW_LEN)) {
            None => Err(Error::Wire(WireError::InvalidValue)),
            Some(code) => Err(
                Error::Mailbox(
                    MailboxError::Aborted {
                        code,
                        address: headers.address,
                        sub_index: headers.sub_index,
                    },
                ),
            ),
        }
    } else if headers.header.mailbox_type != MailboxType::Coe || !request.validate_response(
        headers.address,
        headers.sub_index,
    ) {
        Err(
            Error::Mailbox(
                MailboxError::SdoResponseInvalid {
                    address: headers.address,
                    sub_index: headers.sub_index,
                },
            ),
        )
    } else {
        match R::unpack_response(response) {
            Err(e) => Err(Error::Wire(e)),
            Ok(h) => Ok((h, slice_subrange(response, HEADERS_RAW_LEN, response.len()))),
        }
    }
}

/// The request of an expedited SDO download of the bytes `value`, padded with zeros to four
/// bytes. Longer values need a normal download, which is not offered: they are refused with
/// [`Error::Internal`].
pub fn expedited_download_request(counter: u8, index: u16, access: SubIndex, value: &[u8]) -> (r:
    Result<SdoExpeditedDownload, Error>)
    ensures
        value@.len() > 4 ==> r == Err::<SdoExpeditedDownload, Error>(Error::Internal),
        value@.len() <= 4 ==> (r matches Ok(d) && d.data@ == value@ + Seq::new(
            (4 - value@.len()) as nat,
            |_i: int| 0u8,
        ) && d.headers.sdo_header.size == 4 - value@.len() && d.headers.sdo_header.index == index
            && d.headers.sdo_header.sub_index == (match access {
            SubIndex::Complete => 1u8,
            SubIndex::Index(i) => i,
        }) && d.headers.sdo_header.complete_access == (access is Complete)
            && d.headers.sdo_header.expedited_transfer && d.headers.sdo_header.size_indicator
            && d.headers.sdo_header.command == CoeCommand::DownloadRequest
            && d.headers.header == request_mailbox(0x0a, counter) && d.headers.coe_header == (CoeHeader {
            number: 0,
            service: CoeService::SdoRequest,
        })),
{
    let n = value.len();
    if n > 4 {
        return Err(Error::Internal);
    }
    let mut data = [0u8; 4];
    let mut i: usize = 0;
    while i < n
        invariant
            i <= n,
            n == value@.len(),
            n <= 4,
            forall|k: int| 0 <= k < i ==> data@[k] == value@[k],
            forall|k: int| i <= k < 4 ==> data@[k] == 0u8,
        decreases n - i,
    {
        data[i] = value[i];
        i = i + 1;
    }
    assert(data@ =~= value@ + Seq::new((4 - value@.len()) as nat, |_i: int| 0u8));
    Ok(download(counter, index, access, data, n as u8))
}

/// The data of the response to an upload that must be expedited: four bytes less the size field.
/// A response that is not expedited, or that holds less data than its size field says, is refused
/// with [`Error::Internal`].
pub fn expedited_upload_data(headers: &SdoNormal, data: &[u8]) -> (r: Result<Vec<u8>, Error>)
    ensures
        !headers.sdo_header.expedited_transfer ==> r == Err::<Vec<u8>, Error>(Error::Internal),
        headers.sdo_header.expedited_transfer ==> ({
            let n = if headers.sdo_header.size <= 4 {
                4 - headers.sdo_header.size
            } else {
                0
            };
            if data@.len() < n {
                r == Err::<Vec<u8>, Error>(Error::Internal)
            } else {
                r matches Ok(v) && v@ == data@.subrange(0, n)
            }
        }),
{
    if !headers.sdo_header.expedited_transfer {
        return Err(Error::Internal);
    }
    let len: usize = if headers.sdo_header.size <= 4 {
        (4 - headers.sdo_header.size) as usize
    } else {
        0
    };
    if data.len() < len {
        return Err(Error::Internal);
    }
    Ok(bytes_to_vec(slice_subrange(data, 0, len)))
}

/// An array object of `len` entries fits in room for `max_entries`; a longer one is refused.
pub fn array_len_fits(len: u8, max_entries: usize) -> (r: Result<(), Error>)
    ensures
        len <= max_entries ==> r == Ok::<(), Error>(()),
        len > max_entries ==> r == Err::<(), Error>(Error::Capacity(Item::SdoSubIndex)),
{
    if len as usize > max_entries {
        Err(Error::Capacity(Item::SdoSubIndex))
    } else {
        Ok(())
    }
}

/// How an SDO upload goes on after its first response.
#[derive(Debug, Clone, PartialEq, Eq)]
pub enum UploadStart {
    /// The response held all the data.
    Complete(Vec<u8>),
    /// The data follows in segments, to be requested one by one.
    Segmented,
}

/// The data of the first response to an SDO upload, or whether segments follow.
///
/// `data` is what follows the response headers and `capacity` the size of the value being read.
/// An expedited response holds four bytes less the size field; a normal one begins with the
/// complete size, which must fit in `capacity`, and holds the data when the mailbox length
/// (less ten bytes of headers) covers it.
pub open spec fn spec_upload_start(headers: SdoNormal, data: Seq<u8>, capacity: int) -> Result<
    Seq<u8>,
    Error,
> {
    if headers.sdo_header.expedited_transfer {
        let len = if headers.sdo_header.size <= 4 {
            4 - headers.sdo_header.size
        } else {
            0
        };
        if data.len() < len {
            Err(Error::Internal)
        } else {
            Ok(data.subrange(0, len))
        }
    } else {
        let data_length = if headers.header.length >= 10 {
            headers.header.length - 10
        } else {
            0
        };
        if data.len() < 4 {
            Err(Error::Wire(WireError::ReadBufferTooShort))
        } else {
            let complete_size = le_u32_at(data, 0);
            if complete_size > capacity {
                Err(
                    Error::Mailbox(
                        MailboxError::TooLong {
                            address: headers.sdo_header.index,
                            sub_index: headers.sdo_header.sub_index,
                        },
                    ),
                )
            } else if complete_size <= data_length {
                if data.len() - 4 < data_length {
                    Err(Error::Internal)
                } else {
                    Ok(data.subrange(4, 4 + data_length))
                }
            } else {
                Ok(Seq::empty())
            }
        }
    }
}

/// Whether the first response to an SDO upload leaves the data to segments.
pub open spec fn upload_is_segmented(headers: SdoNormal, data: Seq<u8>, capacity: int) -> bool {
    !headers.sdo_header.expedited_transfer && data.len() >= 4 && le_u32_at(data, 0) <= capacity
        && le_u32_at(data, 0) > (if headers.header.length >= 10 {
        headers.header.length - 10
    } else {
        0
    })
}

/// The complete size a normal upload response announces in its first four bytes, little-endian.
pub open spec fn announced_size(data: Seq<u8>) -> int {
    data[0] + 256 * data[1] + 65536 * data[2] + 16777216 * data[3]
}

/// What the first response to an SDO upload gives, by its announced size.
///
/// A normal response is refused as too long exactly when the size it announces is more than the
/// capacity; a value exactly the size of the capacity fits. A value that fits and that the
/// response carries (the mailbox length, less ten bytes of headers, covers it) is given as the
/// bytes that follow the size, as many as the mailbox length says, which holds the whole value.
/// A value that fits but that the response does not carry is left to segments. An expedited
/// response gives its first four bytes less the unused ones.
pub proof fn lemma_upload_start_sizes(headers: SdoNormal, data: Seq<u8>, capacity: int)
    ensures
        !headers.sdo_header.expedited_transfer && data.len() >= 4 ==> (spec_upload_start(
            headers,
            data,
            capacity,
        ) == Err::<Seq<u8>, Error>(
            Error::Mailbox(
                MailboxError::TooLong {
                    address: headers.sdo_header.index,
                    sub_index: headers.sdo_header.sub_index,
                },
            ),
        ) <==> announced_size(data) > capacity),
        !headers.sdo_header.expedited_transfer && data.len() >= 4 && announced_size(data)
            <= capacity && headers.header.length >= 10 && announced_size(data)
            <= headers.header.length - 10 && data.len() >= 4 + headers.header.length - 10 ==> {
            &&& spec_upload_start(headers, data, capacity) == Ok::<Seq<u8>, Error>(
                data.subrange(4, 4 + headers.header.length - 10),
            )
            &&& announced_size(data) <= data.subrange(4, 4 + headers.header.length - 10).len()
            &&& !upload_is_segmented(headers, data, capacity)
        },
        !headers.sdo_header.expedited_transfer && data.len() >= 4 && announced_size(data)
            <= capacity && announced_size(data) > (if headers.header.length >= 10 {
            headers.header.length - 10
        } else {
            0
        }) ==> upload_is_segmented(headers, data, capacity) && spec_upload_start(
            headers,
            data,
            capacity,
        ) is Ok,
        headers.sdo_header.expedited_transfer && headers.sdo_header.size <= 4 && data.len() >= 4
            ==> spec_upload_start(headers, data, capacity) == Ok::<Seq<u8>, Error>(
            data.subrange(0, 4 - headers.sdo_header.size),
        ),
{
    if data.len() >= 4 {
        assert(le_u32_at(data, 0) == announced_size(data));
    }
}

/// Decide what the first response to an SDO upload gives.
pub fn sdo_upload_start(headers: &SdoNormal, data: &[u8], capacity: usize) -> (r: Result<
    UploadStart,
    Error,
>)
    ensures
        match (r, spec_upload_start(*headers, data@, capacity as int)) {
            (Ok(UploadStart::Complete(v)), Ok(e)) => v@ == e && !upload_is_segmented(
                *headers,
                data@,
                capacity as int,
            ),
            (Ok(UploadStart::Segmented), Ok(_)) => upload_is_segmented(
                *headers,
                data@,
                capacity as int,
            ),
            (Err(a), Err(b)) => a == b,
            _ => false,
        },
{
    if headers.sdo_header.expedited_transfer {
        let len: usize = if headers.sdo_header.size <= 4 {
            (4 - headers.sdo_header.size) as usize
        } else {
            0
        };
        if data.len() < len {
            return Err(Error::Internal);
        }
        Ok(UploadStart::Complete(bytes_to_vec(slice_subrange(data, 0, len))))
    } else {
        let data_length: u16 = if headers.header.length >= 10 {
            headers.header.length - 10
        } else {
            0
        };
        if data.len() < 4 {
            return Err(Error::Wire(WireError::ReadBufferTooShort));
        }
        let complete_size = read_u32(data, 0);
        if complete_size as usize > capacity || complete_size as u64 > capacity as u64 {
            return Err(
                Error::Mailbox(
                    MailboxError::TooLong {
                        address: headers.sdo_header.index,
                        sub_index: headers.sdo_header.sub_index,
                    },
                ),
            );
        }
        if complete_size <= data_length as u32 {
            if data.len() - 4 < data_length as usize {
                return Err(Error::Internal);
            }
            Ok(
                UploadStart::Complete(
                    bytes_to_vec(slice_subrange(data, 4, 4 + data_length as usize)),
                ),
            )
        } else {
            Ok(UploadStart::Segmented)
        }
    }
}

/// A segmented SDO upload in progress: the data gathered so far and the toggle bit of the next
/// segment request.
#[derive(Debug, Clone)]
pub struct SegmentedUpload {
    /// Data gathered so far.
    pub buf: Vec<u8>,
    /// Size of the value being read; the data may not grow beyond it.
    pub capacity: usize,
    /// Toggle bit for the next segment request.
    pub toggle: bool,
}

/// The number of data bytes a segment response of mailbox length `length` carries: the length
/// less three, and for the minimum of seven also less the unused bytes the header counts.
pub open spec fn segment_chunk_len(length: u16, segment_data_size: u8) -> int {
    if length - 3 == 7 {
        7 - segment_data_size
    } else {
        length - 3
    }
}

impl SegmentedUpload {
    /// Start gathering segments into a value of `capacity` bytes; the first request has the toggle
    /// bit clear.
    pub fn new(capacity: usize) -> (r: Self)
        ensures
            r.buf@ == Seq::<u8>::empty(),
            r.capacity == capacity,
            r.toggle == false,
    {
        SegmentedUpload { buf: Vec::new(), capacity, toggle: false }
    }

    /// Add the data of a segment response to what was gathered. Returns whether it was the last
    /// segment; otherwise the toggle bit flips for the next request.
    pub fn push_segment(&mut self, headers: &SdoSegmented, data: &[u8]) -> (r: Result<bool, Error>)
        requires
            headers.header.length >= 3,
            headers.header.length - 3 == 7 ==> headers.sdo_header.segment_data_size <= 7,
        ensures
            ({
                let n = segment_chunk_len(headers.header.length, headers.sdo_header.segment_data_size);
                if data@.len() < n || old(self).buf@.len() + n > old(self).capacity {
                    r == Err::<bool, Error>(Error::Internal)
                } else {
                    &&& r == Ok::<bool, Error>(headers.sdo_header.is_last_segment)
                    &&& final(self).buf@ == old(self).buf@ + data@.subrange(0, n)
                    &&& final(self).capacity == old(self).capacity
                    &&& final(self).toggle == (if headers.sdo_header.is_last_segment {
                        old(self).toggle
                    } else {
                        !old(self).toggle
                    })
                }
            }),
    {
        let mut chunk_len = (headers.header.length - 3) as usize;
        if chunk_len == 7 {
            chunk_len = chunk_len - headers.sdo_header.segment_data_size as usize;
        }
        if data.len() < chunk_len {
            return Err(Error::Internal);
        }
        if self.buf.len() > self.capacity || self.capacity - self.buf.len() < chunk_len {
            return Err(Error::Internal);
        }
        let ghost before = self.buf@;
        let mut i: usize = 0;
        while i < chunk_len
            invariant
                i <= chunk_len,
                chunk_len <= data@.len(),
                self.buf@ == before + data@.subrange(0, i as int),
                self.capacity == old(self).capacity,
                self.toggle == old(self).toggle,
            decreases chunk_len - i,
        {
            self.buf.push(data[i]);
            i = i + 1;
            assert(self.buf@ =~= before + data@.subrange(0, i as int));
        }
        if headers.sdo_header.is_last_segment {
            return Ok(true);
        }
        self.toggle = !self.toggle;
        Ok(false)
    }
}

/// Bytes of CoE header and list type that the mailbox length counts in an object description
/// list response.
pub const COE_HEADER_AND_LIST_TYPE_SIZE: usize = 8;

/// Largest SDO information payload: every object index of the dictionary.
pub const SDO_INFO_CAPACITY: usize = 0x1fffe;

/// SDO information fragments gathered so far.
#[derive(Debug)]
pub struct SdoInfoCollect {
    /// Payload gathered so far.
    pub buf: heapless::Vec<u8, 0x1fffe>,
    /// Whether the list type word at the start of the first fragment was skipped.
    pub consumed_list_type: bool,
}

/// Where the payload of an object description list fragment starts: after the headers, and
/// after the list type word in the first fragment.
pub open spec fn fragment_start(consumed_list_type: bool) -> int {
    if consumed_list_type {
        12
    } else {
        14
    }
}

/// A fragment response whose headers unpack, that answers a list request, and whose announced
/// payload lies within it.
pub open spec fn fragment_in_bounds(s: Seq<u8>, consumed_list_type: bool) -> bool {
    spec_list_response_unpack(s) matches Ok(h) && (h.sdo_info_header.op_code
        == SdoInfoOpCode::GetObjectDescriptionListResponse ==> h.mailbox.length
        >= COE_HEADER_AND_LIST_TYPE_SIZE && fragment_start(consumed_list_type) + (h.mailbox.length
        - COE_HEADER_AND_LIST_TYPE_SIZE) <= s.len())
}

impl SdoInfoCollect {
    /// Nothing gathered yet.
    pub fn new() -> (r: Self)
        ensures
            info_payload(r.buf) == Seq::<u8>::empty(),
            !r.consumed_list_type,
    {
        SdoInfoCollect { buf: info_payload_new(), consumed_list_type: false }
    }

    /// Add a fragment response. Responses of other operations are skipped. Returns whether the
    /// payload is complete.
    pub fn push_fragment(&mut self, response: &[u8]) -> (r: Result<bool, Error>)
        requires
            spec_list_response_unpack(response@) is Ok ==> fragment_in_bounds(
                response@,
                old(self).consumed_list_type,
            ),
        ensures
            match spec_list_response_unpack(response@) {
                Err(e) => r == Err::<bool, Error>(Error::Wire(e)) && *final(self) == *old(self),
                Ok(h) => if h.sdo_info_header.op_code
                    != SdoInfoOpCode::GetObjectDescriptionListResponse {
                    r == Ok::<bool, Error>(false) && info_payload(final(self).buf) == info_payload(
                        old(self).buf,
                    ) && final(self).consumed_list_type == old(self).consumed_list_type
                } else {
                    let start = fragment_start(old(self).consumed_list_type);
                    let len = h.mailbox.length - COE_HEADER_AND_LIST_TYPE_SIZE;
                    &&& final(self).consumed_list_type
                    &&& if info_payload(old(self).buf).len() + len > SDO_INFO_CAPACITY {
                        &&& r == Err::<bool, Error>(Error::Internal)
                        &&& info_payload(final(self).buf) == info_payload(old(self).buf)
                    } else {
                        &&& r == Ok::<bool, Error>(!h.sdo_info_header.incomplete)
                        &&& info_payload(final(self).buf) == info_payload(old(self).buf)
                            + response@.subrange(start, start + len)
                    }
                },
            },
    {
        let headers = match ObjectDescriptionListResponse::unpack_from_slice(response) {
            Ok(h) => h,
            Err(e) => {
                return Err(Error::Wire(e));
            },
        };
        if headers.sdo_info_header.op_code != SdoInfoOpCode::GetObjectDescriptionListResponse {
            return Ok(false);
        }
        let length = headers.mailbox.length as usize - COE_HEADER_AND_LIST_TYPE_SIZE;
        let start: usize = if self.consumed_list_type {
            12
        } else {
            14
        };
        self.consumed_list_type = true;
        match info_payload_extend(&mut self.buf, slice_subrange(response, start, start + length)) {
            Ok(()) => Ok(!headers.sdo_info_header.incomplete),
            Err(()) => Err(Error::Internal),
        }
    }
}

/// The object indices an object description list payload holds: little-endian `u16`s, a
/// trailing odd byte ignored.
pub open spec fn spec_object_list(payload: Seq<u8>) -> Seq<u16> {
    Seq::new(payload.len() / 2, |i: int| le_u16_at(payload, 2 * i))
}

/// Decode the object indices of an object description list payload.
pub fn object_description_list(payload: &[u8]) -> (r: Vec<u16>)
    ensures
        r@ == spec_object_list(payload@),
{
    let mut out: Vec<u16> = Vec::new();
    let len = payload.len();
    let n = len / 2;
    let mut i: usize = 0;
    while i < n
        invariant
            i <= n,
            len == payload@.len(),
            n == payload@.len() / 2,
            out@ == spec_object_list(payload@).subrange(0, i as int),
        decreases n - i,
    {
        out.push(read_u16(payload, 2 * i));
        i = i + 1;
        assert(out@ =~= spec_object_list(payload@).subrange(0, i as int));
    }
    assert(out@ =~= spec_object_list(payload@));
    out
}

} // verus!
