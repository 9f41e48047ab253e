//! Error types.
use vstd::prelude::*;
use crate::coe::abort_code::{abort_code_text, AbortCode};
use crate::command::command_text;
use crate::text::{decimal, hex2, hex4, push_decimal, push_hex2, push_hex4};
use vstd::string::StringExecFns;
use crate::command::Command;
use crate::subdevice_state::SubDeviceState;
use crate::wire::WireError;

verus! {

/// The standard library's UTF-8 decoding error, carried through unchanged.
#[verifier::external_type_specification]
#[verifier::external_body]
pub struct ExUtf8Error(core::str::Utf8Error);

/// An error.
#[allow(inconsistent_fields)]
#[derive(Debug, Copy, Clone, PartialEq, Eq)]
pub enum Error {
    /// A low level error occurred when producing or consuming a PDU.
    Pdu(PduError),
    /// Raw data could not be packed or unpacked.
    Wire(WireError),
    /// A working counter (WKC) error was encountered.
    WorkingCounter {
        /// The expected working counter value.
        expected: u16,
        /// The actual value received.
        received: u16,
        /// Optional context for debugging.
        context: Option<&'static str>,
    },
    /// Failed to borrow an item. This likely points to a race condition.
    Borrow,
    /// Something timed out.
    Timeout,
    /// An EEPROM error was encountered.
    Eeprom(EepromError),
    /// A fixed size array was not large enough to hold a given item type.
    Capacity(Item),
    /// A string was too long to fit in a fixed size buffer.
    StringTooLong {
        /// The length of the fixed size buffer.
        max_length: usize,
        /// The length of the input string.
        string_length: usize,
    },
    /// A mailbox error was encountered.
    Mailbox(MailboxError),
    /// Failed to send a frame over the network interace.
    SendFrame,
    /// Failed to receive a frame properly.
    ReceiveFrame,
    /// A frame was only partially sent.
    PartialSend {
        /// Frame length in bytes.
        len: usize,
        /// The number of bytes sent.
        sent: usize,
    },
    /// A value may be too large or otherwise could not be converted into a target type.
    IntegerTypeConversion,
    /// The allotted storage for a group's PDI is too small for the calculated length read from all
    /// SubDevices in the group.
    PdiTooLong {
        /// Maximum PDI length.
        max_length: usize,
        /// Actual PDI length.
        desired_length: usize,
    },
    /// An item in a list could not be found.
    NotFound {
        /// Item kind.
        item: Item,
        /// An index into a list of items.
        index: Option<usize>,
    },
    /// An internal error occurred. This indicates something that shouldn't happen.
    Internal,
    /// There is a problem with the discovered EtherCAT SubDevice topology.
    Topology,
    /// An error was read back from one or more SubDevices when attempting to transition to a new
    /// state.
    StateTransition,
    /// An unknown SubDevice was encountered during device discovery/initialisation.
    UnknownSlave,
    /// An invalid state was encountered.
    InvalidState {
        /// The desired state.
        expected: SubDeviceState,
        /// The actual state.
        actual: SubDeviceState,
        /// SubDevice address.
        configured_address: u16,
    },
}

/// The kind of item being looked for.
#[derive(Debug, Copy, Clone, PartialEq, Eq, Structural)]
pub enum Item {
    /// An EtherCAT SubDevice.
    Slave,
    /// Process Data Object.
    Pdo,
    /// Fieldbus Memory Management Unit.
    Fmmu,
    /// Sync Manager.
    SyncManager,
    /// A PDO entry.
    PdoEntry,
    /// Extended Fieldbus Memory Management Unit config.
    FmmuEx,
    /// A user-defined SubDevice group.
    Group,
    /// A subindex of a service data object.
    SdoSubIndex,
}

/// Low-level PDU (Process Data Unit) error.
#[derive(Debug, Copy, Clone, PartialEq, Eq, Structural)]
pub enum PduError {
    /// Failed to decode raw PDU data into a given data type.
    Decode,
    /// Something went wrong when encoding/decoding the raw Ethernet II frame.
    Ethernet,
    /// PDU data is too long to fit in the given buffer.
    TooLong,
    /// Failed to create an Ethernet II frame.
    CreateFrame,
    /// A frame index was given that does not point to a frame.
    InvalidIndex(usize),
    /// A received frame is invalid.
    Validation(PduValidationError),
    /// A frame is not ready to be reused.
    InvalidFrameState,
    /// Failed to swap atomic state for a PDU frame.
    SwapState,
}

/// CoE mailbox error.
#[derive(Debug, Copy, Clone, PartialEq, Eq, Structural)]
pub enum MailboxError {
    /// The mailbox operation was aborted.
    Aborted {
        /// Abort code.
        code: AbortCode,
        /// The address used in the operation.
        address: u16,
        /// The subindex used in the operation.
        sub_index: u8,
    },
    /// Mailbox data is too long to fit in the given type.
    TooLong {
        /// The address used in the operation.
        address: u16,
        /// The subindex used in the operation.
        sub_index: u8,
    },
    /// A SubDevice has no mailbox but requires one for a given action.
    NoMailbox,
    /// The SubDevice has no read mailbox.
    NoReadMailbox,
    /// The SubDevice has no write mailbox.
    NoWriteMailbox,
    /// The SubDevice sent an emergency message.
    Emergency {
        /// Error code.
        error_code: u16,
        /// Error register.
        error_register: u8,
    },
    /// The response to a mailbox action is invalid.
    SdoResponseInvalid {
        /// The address used in the operation.
        address: u16,
        /// The subindex used in the operation.
        sub_index: u8,
    },
}

/// EEPROM (SII) error.
#[derive(Debug, Copy, Clone, PartialEq, Eq, Structural)]
pub enum EepromError {
    /// Failed to decode data from EEPROM.
    Decode,
    /// An EEPROM section is too large to fit in the given buffer.
    SectionOverrun,
    /// The given category does not exist in the SubDevice's EEPROM.
    NoCategory,
    /// The section in the SubDevice's EEPROM is too small to fill the given buffer.
    SectionUnderrun,
    /// The EEPROM error flags could not be cleared.
    ClearErrors,
}

/// An EtherCAT "visible string" (i.e. a human readable string) error.
#[derive(Debug, Copy, Clone, PartialEq, Eq)]
pub enum VisibleStringError {
    /// The string could not be decoded.
    Decode(core::str::Utf8Error),
    /// The source data is too long to fit in a given storage type.
    TooLong,
}

/// A PDU response failed to validate.
#[allow(inconsistent_fields)]
#[derive(Copy, Clone, PartialEq, Eq, Debug, Structural)]
pub enum PduValidationError {
    /// The index of the received PDU does not match that of the sent one.
    IndexMismatch {
        /// Sent index.
        sent: u8,
        /// Received index.
        received: u8,
    },
    /// The received command does not match the one sent.
    CommandMismatch {
        /// Sent command.
        sent: Command,
        /// Received command.
        received: Command,
    },
}

impl From<PduError> for Error {
    fn from(e: PduError) -> (r: Self)
        ensures
            r == Error::Pdu(e),
    {
        Error::Pdu(e)
    }
}

impl vstd::std_specs::convert::FromSpecImpl<PduError> for Error {
    open spec fn obeys_from_spec() -> bool {
        true
    }

    open spec fn from_spec(e: PduError) -> Self {
        Error::Pdu(e)
    }
}

impl From<WireError> for Error {
    fn from(e: WireError) -> (r: Self)
        ensures
            r == Error::Wire(e),
    {
        Error::Wire(e)
    }
}

impl vstd::std_specs::convert::FromSpecImpl<WireError> for Error {
    open spec fn obeys_from_spec() -> bool {
        true
    }

    open spec fn from_spec(e: WireError) -> Self {
        Error::Wire(e)
    }
}

impl From<PduValidationError> for PduError {
    fn from(e: PduValidationError) -> (r: Self)
        ensures
            r == PduError::Validation(e),
    {
        PduError::Validation(e)
    }
}

impl vstd::std_specs::convert::FromSpecImpl<PduValidationError> for PduError {
    open spec fn obeys_from_spec() -> bool {
        true
    }

    open spec fn from_spec(e: PduValidationError) -> Self {
        PduError::Validation(e)
    }
}

/// The name of a wire error.
pub open spec fn wire_error_text(e: WireError) -> Seq<char> {
    match e {
        WireError::ReadBufferTooShort => "ReadBufferTooShort"@,
        WireError::WriteBufferTooShort => "WriteBufferTooShort"@,
        WireError::InvalidValue => "InvalidValue"@,
    }
}

/// The name of an item kind.
pub open spec fn item_text(i: Item) -> Seq<char> {
    match i {
        Item::Slave => "Slave"@,
        Item::Pdo => "Pdo"@,
        Item::Fmmu => "Fmmu"@,
        Item::SyncManager => "SyncManager"@,
        Item::PdoEntry => "PdoEntry"@,
        Item::FmmuEx => "FmmuEx"@,
        Item::Group => "Group"@,
        Item::SdoSubIndex => "SdoSubIndex"@,
    }
}

/// The name of a SubDevice state, with the value of an unknown one.
pub open spec fn state_text(st: SubDeviceState) -> Seq<char> {
    match st {
        SubDeviceState::NotSet => "NotSet"@,
        SubDeviceState::Init => "Init"@,
        SubDeviceState::PreOp => "PreOp"@,
        SubDeviceState::Bootstrap => "Bootstrap"@,
        SubDeviceState::SafeOp => "SafeOp"@,
        SubDeviceState::Op => "Op"@,
        SubDeviceState::Unknown(n) => "Unknown("@ + decimal(n as nat) + ")"@,
    }
}

/// `Some(n)` or `None`.
pub open spec fn index_text(i: Option<usize>) -> Seq<char> {
    match i {
        Some(n) => "Some("@ + decimal(n as nat) + ")"@,
        None => "None"@,
    }
}

/// The message of an EEPROM error.
pub open spec fn eeprom_error_text(e: EepromError) -> Seq<char> {
    match e {
        EepromError::Decode => "failed to decode data"@,
        EepromError::SectionOverrun => "section too large to fit in buffer"@,
        EepromError::NoCategory => "category not found"@,
        EepromError::SectionUnderrun => "section too short to fill buffer"@,
        EepromError::ClearErrors => "failed to clear error flags"@,
    }
}

/// The message of a PDU validation error.
pub open spec fn pdu_validation_text(e: PduValidationError) -> Seq<char> {
    match e {
        PduValidationError::IndexMismatch { sent, received } => "PDU index mismatch: sent "@
            + decimal(sent as nat) + ", received "@ + decimal(received as nat),
        PduValidationError::CommandMismatch { sent, received } => "PDU command mismatch: sent "@
            + command_text(sent) + ", received "@ + command_text(received),
    }
}

/// The message of a PDU error.
pub open spec fn pdu_error_text(e: PduError) -> Seq<char> {
    match e {
        PduError::Decode => "failed to decode raw PDU data into type"@,
        PduError::Ethernet => "network"@,
        PduError::TooLong => "data is too long to fit in given buffer"@,
        PduError::CreateFrame => "failed to create frame"@,
        PduError::InvalidIndex(index) => "invalid PDU index "@ + decimal(index as nat),
        PduError::Validation(v) => "received PDU validation failed: "@ + pdu_validation_text(v),
        PduError::InvalidFrameState => "invalid PDU frame state"@,
        PduError::SwapState => "failed to swap frame state"@,
    }
}

/// `address:sub_index`, the object a mailbox error is about.
pub open spec fn object_text(address: u16, sub_index: u8) -> Seq<char> {
    hex4(address) + ":"@ + decimal(sub_index as nat)
}

/// The message of a mailbox error.
pub open spec fn mailbox_error_text(e: MailboxError) -> Seq<char> {
    match e {
        MailboxError::Aborted { code, address, sub_index } => object_text(address, sub_index)
            + " aborted: "@ + abort_code_text(code),
        MailboxError::TooLong { address, sub_index } => object_text(address, sub_index)
            + " returned data is too long"@,
        MailboxError::NoMailbox => "device has no mailbox"@,
        MailboxError::NoReadMailbox => "device has no read mailbox"@,
        MailboxError::NoWriteMailbox => "device has no write mailbox"@,
        MailboxError::Emergency { error_code, error_register } => "emergency: code "@ + hex4(
            error_code,
        ) + ", register "@ + hex2(error_register),
        MailboxError::SdoResponseInvalid { address, sub_index } => object_text(address, sub_index)
            + " invalid response from device"@,
    }
}

/// The message of an error, numbers in decimal unless an address.
pub open spec fn error_text(e: Error) -> Seq<char> {
    match e {
        Error::Pdu(p) => "pdu: "@ + pdu_error_text(p),
        Error::Wire(w) => "wire: "@ + wire_error_text(w),
        Error::WorkingCounter { expected, received, context } => "working counter expected "@
            + decimal(expected as nat) + ", got "@ + decimal(received as nat) + " ("@ + match context {
            Some(c) => c@,
            None => "[no context provided]"@,
        } + ")"@,
        Error::Borrow => Seq::empty(),
        Error::Timeout => Seq::empty(),
        Error::Eeprom(e) => "eeprom: "@ + eeprom_error_text(e),
        Error::Capacity(item) => "not enough capacity for "@ + item_text(item),
        Error::StringTooLong { max_length, string_length } => "string of "@ + decimal(
            string_length as nat,
        ) + " bytes is too long to fit in max storage of "@ + decimal(max_length as nat)
            + " bytes"@,
        Error::Mailbox(m) => "mailbox: "@ + mailbox_error_text(m),
        Error::SendFrame => "failed to send EtherCAT frame"@,
        Error::ReceiveFrame => "failed to receive an EtherCAT frame"@,
        Error::PartialSend { len, sent } => "frame of "@ + decimal(len as nat)
            + " bytes only had "@ + decimal(sent as nat) + " bytes sent"@,
        Error::IntegerTypeConversion => "failed to convert between integer types"@,
        Error::PdiTooLong { max_length, desired_length } => "Process Data Image is too long ("@
            + decimal(desired_length as nat) + " bytes), max length is "@ + decimal(
            max_length as nat,
        ),
        Error::NotFound { item, index } => "item kind "@ + item_text(item)
            + " not found (index: "@ + index_text(index) + ")"@,
        Error::Internal => "internal error"@,
        Error::Topology => "topology"@,
        Error::StateTransition => "a slave failed to transition to a new state"@,
        Error::UnknownSlave => "unknown slave device"@,
        Error::InvalidState { expected, actual, configured_address } => "slave "@ + hex4(
            configured_address,
        ) + " state is invalid: "@ + state_text(actual) + ", expected "@ + state_text(expected),
    }
}

/// Append `n`, a `usize`, in decimal.
fn push_usize(s: &mut String, n: usize)
    ensures
        final(s)@ == old(s)@ + decimal(n as nat),
{
    push_decimal(s, n as u64);
}

/// Append the name of a wire error.
fn push_wire(s: &mut String, e: &WireError)
    ensures
        final(s)@ == old(s)@ + wire_error_text(*e),
{
    match e {
        WireError::ReadBufferTooShort => s.append("ReadBufferTooShort"),
        WireError::WriteBufferTooShort => s.append("WriteBufferTooShort"),
        WireError::InvalidValue => s.append("InvalidValue"),
    }
}

/// Append the name of an item kind.
fn push_item(s: &mut String, i: &Item)
    ensures
        final(s)@ == old(s)@ + item_text(*i),
{
    match i {
        Item::Slave => s.append("Slave"),
        Item::Pdo => s.append("Pdo"),
        Item::Fmmu => s.append("Fmmu"),
        Item::SyncManager => s.append("SyncManager"),
        Item::PdoEntry => s.append("PdoEntry"),
        Item::FmmuEx => s.append("FmmuEx"),
        Item::Group => s.append("Group"),
        Item::SdoSubIndex => s.append("SdoSubIndex"),
    }
}

/// Append the name of a SubDevice state.
fn push_state(s: &mut String, st: &SubDeviceState)
    ensures
        final(s)@ == old(s)@ + state_text(*st),
{
    match st {
        SubDeviceState::NotSet => s.append("NotSet"),
        SubDeviceState::Init => s.append("Init"),
        SubDeviceState::PreOp => s.append("PreOp"),
        SubDeviceState::Bootstrap => s.append("Bootstrap"),
        SubDeviceState::SafeOp => s.append("SafeOp"),
        SubDeviceState::Op => s.append("Op"),
        SubDeviceState::Unknown(n) => {
            s.append("Unknown(");
            push_decimal(s, *n as u64);
            s.append(")");
            assert(s@ =~= old(s)@ + state_text(*st));
        },
    }
}

/// Append the object a mailbox error is about.
fn push_object(s: &mut String, address: u16, sub_index: u8)
    ensures
        final(s)@ == old(s)@ + object_text(address, sub_index),
{
    push_hex4(s, address);
    s.append(":");
    push_decimal(s, sub_index as u64);
    assert(s@ =~= old(s)@ + object_text(address, sub_index));
}

impl EepromError {
    /// Append the message of this error to `s`.
    pub fn push_text(&self, s: &mut String)
        ensures
            final(s)@ == old(s)@ + eeprom_error_text(*self),
    {
        match self {
            EepromError::Decode => s.append("failed to decode data"),
            EepromError::SectionOverrun => s.append("section too large to fit in buffer"),
            EepromError::NoCategory => s.append("category not found"),
            EepromError::SectionUnderrun => s.append("section too short to fill buffer"),
            EepromError::ClearErrors => s.append("failed to clear error flags"),
        }
    }

    /// The message of this error.
    pub fn message(&self) -> (r: String)
        ensures
            r@ == eeprom_error_text(*self),
    {
        let mut s = String::new();
        self.push_text(&mut s);
        assert(s@ =~= eeprom_error_text(*self));
        s
    }
}

impl PduValidationError {
    /// Append the message of this error to `s`.
    pub fn push_text(&self, s: &mut String)
        ensures
            final(s)@ == old(s)@ + pdu_validation_text(*self),
    {
        match self {
            PduValidationError::IndexMismatch { sent, received } => {
                s.append("PDU index mismatch: sent ");
                push_decimal(s, *sent as u64);
                s.append(", received ");
                push_decimal(s, *received as u64);
            },
            PduValidationError::CommandMismatch { sent, received } => {
                s.append("PDU command mismatch: sent ");
                sent.push_text(s);
                s.append(", received ");
                received.push_text(s);
            },
        }
        assert(s@ =~= old(s)@ + pdu_validation_text(*self));
    }

    /// The message of this error.
    pub fn message(&self) -> (r: String)
        ensures
            r@ == pdu_validation_text(*self),
    {
        let mut s = String::new();
        self.push_text(&mut s);
        assert(s@ =~= pdu_validation_text(*self));
        s
    }
}

impl PduError {
    /// Append the message of this error to `s`.
    pub fn push_text(&self, s: &mut String)
        ensures
            final(s)@ == old(s)@ + pdu_error_text(*self),
    {
        match self {
            PduError::Decode => s.append("failed to decode raw PDU data into type"),
            PduError::Ethernet => s.append("network"),
            PduError::TooLong => s.append("data is too long to fit in given buffer"),
            PduError::CreateFrame => s.append("failed to create frame"),
            PduError::InvalidIndex(index) => {
                s.append("invalid PDU index ");
                push_usize(s, *index);
            },
            PduError::Validation(v) => {
                s.append("received PDU validation failed: ");
                v.push_text(s);
            },
            PduError::InvalidFrameState => s.append("invalid PDU frame state"),
            PduError::SwapState => s.append("failed to swap frame state"),
        }
        assert(s@ =~= old(s)@ + pdu_error_text(*self));
    }

    /// The message of this error.
    pub fn message(&self) -> (r: String)
        ensures
            r@ == pdu_error_text(*self),
    {
        let mut s = String::new();
        self.push_text(&mut s);
        assert(s@ =~= pdu_error_text(*self));
        s
    }
}

impl MailboxError {
    /// Append the message of this error to `s`.
    pub fn push_text(&self, s: &mut String)
        ensures
            final(s)@ == old(s)@ + mailbox_error_text(*self),
    {
        match self {
            MailboxError::Aborted { code, address, sub_index } => {
                push_object(s, *address, *sub_index);
                s.append(" aborted: ");
                s.append(code.description());
            },
            MailboxError::TooLong { address, sub_index } => {
                push_object(s, *address, *sub_index);
                s.append(" returned data is too long");
            },
            MailboxError::NoMailbox => s.append("device has no mailbox"),
            MailboxError::NoReadMailbox => s.append("device has no read mailbox"),
            MailboxError::NoWriteMailbox => s.append("device has no write mailbox"),
            MailboxError::Emergency { error_code, error_register } => {
                s.append("emergency: code ");
                push_hex4(s, *error_code);
                s.append(", register ");
                push_hex2(s, *error_register);
            },
            MailboxError::SdoResponseInvalid { address, sub_index } => {
                push_object(s, *address, *sub_index);
                s.append(" invalid response from device");
            },
        }
        assert(s@ =~= old(s)@ + mailbox_error_text(*self));
    }

    /// The message of this error.
    pub fn message(&self) -> (r: String)
        ensures
            r@ == mailbox_error_text(*self),
    {
        let mut s = String::new();
        self.push_text(&mut s);
        assert(s@ =~= mailbox_error_text(*self));
        s
    }
}

impl Error {
    /// Append the message of this error to `s`.
    pub fn push_text(&self, s: &mut String)
        ensures
            final(s)@ == old(s)@ + error_text(*self),
    {
        match self {
            Error::Pdu(p) => {
                s.append("pdu: ");
                p.push_text(s);
            },
            Error::Wire(w) => {
                s.append("wire: ");
                push_wire(s, w);
            },
            Error::WorkingCounter { expected, received, context } => {
                s.append("working counter expected ");
                push_decimal(s, *expected as u64);
                s.append(", got ");
                push_decimal(s, *received as u64);
                s.append(" (");
                match context {
                    Some(c) => s.append(c),
                    None => s.append("[no context provided]"),
                }
                s.append(")");
            },
            Error::Borrow => {},
            Error::Timeout => {},
            Error::Eeprom(e) => {
                s.append("eeprom: ");
                e.push_text(s);
            },
            Error::Capacity(item) => {
                s.append("not enough capacity for ");
                push_item(s, item);
            },
            Error::StringTooLong { max_length, string_length } => {
                s.append("string of ");
                push_usize(s, *string_length);
                s.append(" bytes is too long to fit in max storage of ");
                push_usize(s, *max_length);
                s.append(" bytes");
            },
            Error::Mailbox(m) => {
                s.append("mailbox: ");
                m.push_text(s);
            },
            Error::SendFrame => s.append("failed to send EtherCAT frame"),
            Error::ReceiveFrame => s.append("failed to receive an EtherCAT frame"),
            Error::PartialSend { len, sent } => {
                s.append("frame of ");
                push_usize(s, *len);
                s.append(" bytes only had ");
                push_usize(s, *sent);
                s.append(" bytes sent");
            },
            Error::IntegerTypeConversion => s.append("failed to convert between integer types"),
            Error::PdiTooLong { max_length, desired_length } => {
                s.append("Process Data Image is too long (");
                push_usize(s, *desired_length);
                s.append(" bytes), max length is ");
                push_usize(s, *max_length);
            },
            Error::NotFound { item, index } => {
                s.append("item kind ");
                push_item(s, item);
                s.append(" not found (index: ");
                match index {
                    Some(n) => {
                        s.append("Some(");
                        push_usize(s, *n);
                        s.append(")");
                    },
                    None => s.append("None"),
                }
                s.append(")");
            },
            Error::Internal => s.append("internal error"),
            Error::Topology => s.append("topology"),
            Error::StateTransition => s.append("a slave failed to transition to a new state"),
            Error::UnknownSlave => s.append("unknown slave device"),
            Error::InvalidState { expected, actual, configured_address } => {
                s.append("slave ");
                push_hex4(s, *configured_address);
                s.append(" state is invalid: ");
                push_state(s, actual);
                s.append(", expected ");
                push_state(s, expected);
            },
        }
        assert(s@ =~= old(s)@ + error_text(*self));
    }

    /// The message of this error.
    pub fn message(&self) -> (r: String)
        ensures
            r@ == error_text(*self),
    {
        let mut s = String::new();
        self.push_text(&mut s);
        assert(s@ =~= error_text(*self));
        s
    }
}

} // verus!

