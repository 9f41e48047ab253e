//! Single PDUs for the `FPRD` and `BRD` commands: building, encoding and parsing responses.
use vstd::prelude::*;
use crate::LEN_MASK;
use crate::wire::{bytes_to_vec, le_u16_at, lemma_u16_roundtrip, read_u16, u16_le_bytes};
use vstd::slice::slice_subrange;

verus! {

/// The standard library's I/O error, carried through unchanged.
#[verifier::external_type_specification]
#[verifier::external_body]
pub struct ExIoError(std::io::Error);

/// The error returned when a slice buffer is too short for a PDU: `std::io::Error::from` of
/// kind `WriteZero`. It has the kind of the error `std::io::Write::write_all` gives on a full
/// slice, but not that error's message. Nothing is stated of the value.
#[verifier::external_body]
fn write_zero_error() -> std::io::Error {
    std::io::Error::from(std::io::ErrorKind::WriteZero)
}

/// Size of a PDU without its data: a ten byte header and a two byte working counter.
pub const PDU_OVERHEAD: u16 = 12;

/// A PDU command.
#[derive(Debug, Copy, Clone, PartialEq, Eq, Structural)]
pub enum Command {
    /// Configured address physical read.
    Fprd,
    /// Broadcast read.
    Brd,
}

/// The command a raw code names, or the code back when it names none.
pub open spec fn pdu_command_from_u8(value: u8) -> Result<Command, u8> {
    if value == 0x04 {
        Ok(Command::Fprd)
    } else if value == 0x07 {
        Ok(Command::Brd)
    } else {
        Err(value)
    }
}

impl TryFrom<u8> for Command {
    type Error = u8;

    fn try_from(value: u8) -> (r: Result<Self, Self::Error>)
        ensures
            r == pdu_command_from_u8(value),
    {
        if value == 0x04 {
            Ok(Command::Fprd)
        } else if value == 0x07 {
            Ok(Command::Brd)
        } else {
            Err(value)
        }
    }
}

impl vstd::std_specs::convert::TryFromSpecImpl<u8> for Command {
    open spec fn obeys_try_from_spec() -> bool {
        true
    }

    open spec fn try_from_spec(value: u8) -> Result<Self, u8> {
        pdu_command_from_u8(value)
    }
}

/// The bytes of a PDU with the given header fields, `data_len` zero data bytes and the working
/// counter.
pub open spec fn pdu_request_bytes(
    command: u8,
    idx: u8,
    adp: u16,
    ado: u16,
    packed: u16,
    irq: u16,
    data_len: u16,
    working_counter: u16,
) -> Seq<u8> {
    seq![command, idx] + u16_le_bytes(adp) + u16_le_bytes(ado) + u16_le_bytes(packed)
        + u16_le_bytes(irq) + Seq::new(data_len as nat, |_i: int| 0u8) + u16_le_bytes(
        working_counter,
    )
}

/// `buf` after as much of `bytes` as fits has been written at its start.
pub open spec fn written_prefix(buf: Seq<u8>, bytes: Seq<u8>) -> Seq<u8> {
    if bytes.len() <= buf.len() {
        bytes + buf.subrange(bytes.len() as int, buf.len() as int)
    } else {
        bytes.subrange(0, buf.len() as int)
    }
}

/// Write `bytes` to the start of `buf`, as much as fits, failing if not all of it fits.
fn write_all_prefix(buf: &mut [u8], bytes: &[u8]) -> (r: Result<(), std::io::Error>)
    ensures
        final(buf)@ == written_prefix(old(buf)@, bytes@),
        r is Ok <==> bytes@.len() <= old(buf)@.len(),
{
    let n = if bytes.len() <= buf.len() {
        bytes.len()
    } else {
        buf.len()
    };
    let mut i: usize = 0;
    while i < n
        invariant
            n <= bytes@.len(),
            n <= old(buf)@.len(),
            n == (if bytes@.len() <= old(buf)@.len() {
                bytes@.len()
            } else {
                old(buf)@.len()
            }),
            i <= n,
            buf@.len() == old(buf)@.len(),
            forall|k: int|
                0 <= k < buf@.len() ==> #[trigger] buf@[k] == (if k < i {
                    bytes@[k]
                } else {
                    old(buf)@[k]
                }),
        decreases n - i,
    {
        buf[i] = bytes[i];
        i = i + 1;
    }
    assert(buf@ =~= written_prefix(old(buf)@, bytes@));
    if bytes.len() <= buf.len() {
        Ok(())
    } else {
        Err(write_zero_error())
    }
}

/// The request bytes of a PDU, built in a vector.
fn request_bytes(
    command: u8,
    idx: u8,
    adp: u16,
    ado: u16,
    packed: u16,
    irq: u16,
    data_len: u16,
    working_counter: u16,
) -> (r: Vec<u8>)
    ensures
        r@ == pdu_request_bytes(command, idx, adp, ado, packed, irq, data_len, working_counter),
{
    let mut v: Vec<u8> = Vec::new();
    v.push(command);
    v.push(idx);
    v.push((adp % 256) as u8);
    v.push((adp / 256) as u8);
    v.push((ado % 256) as u8);
    v.push((ado / 256) as u8);
    v.push((packed % 256) as u8);
    v.push((packed / 256) as u8);
    v.push((irq % 256) as u8);
    v.push((irq / 256) as u8);
    let ghost head = v@;
    let mut i: u16 = 0;
    while i < data_len
        invariant
            i <= data_len,
            v@ == head + Seq::new(i as nat, |_i: int| 0u8),
        decreases data_len - i,
    {
        v.push(0u8);
        i = i + 1;
        assert(v@ =~= head + Seq::new(i as nat, |_i: int| 0u8));
    }
    v.push((working_counter % 256) as u8);
    v.push((working_counter / 256) as u8);
    assert(v@ =~= pdu_request_bytes(command, idx, adp, ado, packed, irq, data_len, working_counter));
    v
}

/// A configured address physical read PDU.
#[derive(Debug)]
pub struct Fprd {
    /// Command code.
    pub command: u8,
    /// Index.
    pub idx: u8,
    /// SubDevice address.
    pub adp: u16,
    /// Memory or register address.
    pub ado: u16,
    /// Length (11 bits), reserved (3), circulating (1), next (1).
    pub packed: u16,
    /// Interrupt.
    pub irq: u16,
    /// Response data from the SubDevice.
    pub data: Vec<u8>,
    /// Working counter.
    pub working_counter: u16,
    /// Length of the data in bytes; not on the wire.
    pub data_len: u16,
}

impl Fprd {
    /// A request to read `len` bytes from `memory_address` of the SubDevice at `slave_addr`.
    pub fn new(len: u16, slave_addr: u16, memory_address: u16) -> (r: Self)
        ensures
            r.command == 0x04,
            r.idx == 0x01,
            r.adp == slave_addr,
            r.ado == memory_address,
            r.packed == len % 2048,
            r.irq == 0,
            r.data@ == Seq::<u8>::empty(),
            r.working_counter == 0,
            r.data_len == len,
    {
        let packed = len & LEN_MASK;
        assert(len & LEN_MASK == len % 2048) by (bit_vector);
        Fprd {
            command: 0x04,
            idx: 0x01,
            adp: slave_addr,
            ado: memory_address,
            packed,
            irq: 0,
            data: Vec::new(),
            working_counter: 0,
            data_len: len,
        }
    }

    /// Length of the whole PDU in bytes.
    pub fn byte_len(&self) -> (r: u16)
        requires
            self.data_len + PDU_OVERHEAD <= u16::MAX,
        ensures
            r == self.data_len + PDU_OVERHEAD,
    {
        PDU_OVERHEAD + self.data_len
    }

    /// The bytes this PDU encodes to, with zeros for the data the SubDevice fills in.
    pub open spec fn spec_bytes(&self) -> Seq<u8> {
        pdu_request_bytes(
            self.command,
            self.idx,
            self.adp,
            self.ado,
            self.packed,
            self.irq,
            self.data_len,
            self.working_counter,
        )
    }

    /// Write the PDU to the start of `buf`; fails, after writing what fits, if `buf` is too
    /// short.
    pub fn as_bytes(&self, buf: &mut [u8]) -> (r: Result<(), std::io::Error>)
        ensures
            final(buf)@ == written_prefix(old(buf)@, self.spec_bytes()),
            r is Ok <==> self.spec_bytes().len() <= old(buf)@.len(),
    {
        let bytes = request_bytes(
            self.command,
            self.idx,
            self.adp,
            self.ado,
            self.packed,
            self.irq,
            self.data_len,
            self.working_counter,
        );
        write_all_prefix(buf, bytes.as_slice())
    }

    /// Set the "next PDU follows" flag, the top bit of the packed field.
    fn set_has_next(&mut self, has_next: bool)
        ensures
            final(self).packed == (old(self).packed | (if has_next {
                0x8000u16
            } else {
                0u16
            })),
            final(self).command == old(self).command && final(self).idx == old(self).idx
                && final(self).adp == old(self).adp && final(self).ado == old(self).ado
                && final(self).irq == old(self).irq && final(self).data@ == old(self).data@
                && final(self).working_counter == old(self).working_counter
                && final(self).data_len == old(self).data_len,
    {
        let flag: u16 = if has_next {
            0x8000
        } else {
            0
        };
        self.packed = self.packed | flag;
    }
}

/// A broadcast read PDU.
#[derive(Debug, Clone)]
pub struct Brd {
    /// Command code.
    pub command: u8,
    /// Index.
    pub idx: u8,
    /// Auto increment address.
    pub adp: u16,
    /// Memory or register address.
    pub ado: u16,
    /// Length (11 bits), reserved (3), circulating (1), next (1).
    pub packed: u16,
    /// Interrupt.
    pub irq: u16,
    /// Response data from the SubDevices.
    pub data: Vec<u8>,
    /// Working counter.
    pub working_counter: u16,
    /// Length of the data in bytes; not on the wire.
    pub data_len: u16,
}

/// How far parsing a response gets before it fails.
#[derive(Debug, Copy, Clone, PartialEq, Eq, Structural)]
pub enum ParseStage {
    /// The command byte is missing or not `BRD`.
    Command,
    /// The index byte is missing or differs from the request's.
    Index,
    /// The rest of the ten byte header is missing.
    Header,
    /// Fewer data bytes follow than the length field says.
    Data,
    /// The working counter is missing.
    WorkingCounter,
    /// Bytes follow the working counter.
    Trailing,
    /// Nothing is wrong.
    Complete,
}

/// The data length a response header in `s` announces.
pub open spec fn response_data_len(s: Seq<u8>) -> int {
    (le_u16_at(s, 6) % 2048) as int
}

/// Where parsing the response `s` to a request with index `idx` stops.
pub open spec fn brd_parse_stage(s: Seq<u8>, idx: u8) -> ParseStage {
    if s.len() < 1 || s[0] != 0x07 {
        ParseStage::Command
    } else if s.len() < 2 || s[1] != idx {
        ParseStage::Index
    } else if s.len() < 10 {
        ParseStage::Header
    } else if s.len() < 10 + response_data_len(s) {
        ParseStage::Data
    } else if s.len() < 12 + response_data_len(s) {
        ParseStage::WorkingCounter
    } else if s.len() > 12 + response_data_len(s) {
        ParseStage::Trailing
    } else {
        ParseStage::Complete
    }
}

/// The name of the part of a response that could not be parsed.
pub open spec fn parse_stage_name(stage: ParseStage) -> Seq<char> {
    match stage {
        ParseStage::Command => "command"@,
        ParseStage::Index => "index"@,
        ParseStage::Header => "header"@,
        ParseStage::Data => "data"@,
        _ => "working counter"@,
    }
}

/// A PDU response that failed to parse.
#[derive(Debug)]
pub enum PduParseError {
    /// The received command differs from the sent one.
    Command {
        /// Received command.
        received: Command,
        /// Expected command.
        expected: Command,
    },
    /// The received index differs from the sent one.
    Index {
        /// Received index.
        received: u8,
        /// Expected index.
        expected: u8,
    },
    /// The response is malformed; the message names the part that could not be read.
    Parse(String),
    /// Bytes follow the end of the PDU.
    Incomplete,
    /// A command code names no command.
    InvalidCommand(u8),
}

impl Brd {
    /// A request to read `len` bytes from `memory_address` of every SubDevice.
    pub fn new(len: u16, memory_address: u16) -> (r: Self)
        ensures
            r.command == 0x07,
            r.idx == 0x01,
            r.adp == 0,
            r.ado == memory_address,
            r.packed == len % 2048,
            r.irq == 0,
            r.data@ == Seq::<u8>::empty(),
            r.working_counter == 0,
            r.data_len == len,
    {
        let packed = len & LEN_MASK;
        assert(len & LEN_MASK == len % 2048) by (bit_vector);
        Brd {
            command: 0x07,
            idx: 0x01,
            adp: 0,
            ado: memory_address,
            packed,
            irq: 0,
            data: Vec::new(),
            working_counter: 0,
            data_len: len,
        }
    }

    /// Length of the whole PDU in bytes.
    pub fn byte_len(&self) -> (r: u16)
        requires
            self.data_len + PDU_OVERHEAD <= u16::MAX,
        ensures
            r == self.data_len + PDU_OVERHEAD,
    {
        PDU_OVERHEAD + self.data_len
    }

    /// The bytes this PDU encodes to, with zeros for the data the SubDevices fill in.
    pub open spec fn spec_bytes(&self) -> Seq<u8> {
        pdu_request_bytes(
            self.command,
            self.idx,
            self.adp,
            self.ado,
            self.packed,
            self.irq,
            self.data_len,
            self.working_counter,
        )
    }

    /// Write the PDU to the start of `buf`; fails, after writing what fits, if `buf` is too
    /// short.
    pub fn as_bytes(&self, buf: &mut [u8]) -> (r: Result<(), std::io::Error>)
        ensures
            final(buf)@ == written_prefix(old(buf)@, self.spec_bytes()),
            r is Ok <==> self.spec_bytes().len() <= old(buf)@.len(),
    {
        let bytes = request_bytes(
            self.command,
            self.idx,
            self.adp,
            self.ado,
            self.packed,
            self.irq,
            self.data_len,
            self.working_counter,
        );
        write_all_prefix(buf, bytes.as_slice())
    }

    /// Set the "next PDU follows" flag, the top bit of the packed field.
    fn set_has_next(&mut self, has_next: bool)
        ensures
            final(self).packed == (old(self).packed | (if has_next {
                0x8000u16
            } else {
                0u16
            })),
            final(self).command == old(self).command && final(self).idx == old(self).idx
                && final(self).adp == old(self).adp && final(self).ado == old(self).ado
                && final(self).irq == old(self).irq && final(self).data@ == old(self).data@
                && final(self).working_counter == old(self).working_counter
                && final(self).data_len == old(self).data_len,
    {
        let flag: u16 = if has_next {
            0x8000
        } else {
            0
        };
        self.packed = self.packed | flag;
    }

    /// Parse a response to this request from `i`: a `BRD` command byte, this request's index,
    /// the rest of the header, as many data bytes as the length field says and the working
    /// counter, with nothing after it.
    pub fn parse_response(&self, i: &[u8]) -> (r: Result<Self, PduParseError>)
        ensures
            (r is Ok) <==> brd_parse_stage(i@, self.idx) == ParseStage::Complete,
            r matches Ok(b) ==> {
                let dl = response_data_len(i@);
                &&& b.command == i@[0]
                &&& b.idx == i@[1]
                &&& b.adp == le_u16_at(i@, 2)
                &&& b.ado == le_u16_at(i@, 4)
                &&& b.packed == le_u16_at(i@, 6)
                &&& b.irq == le_u16_at(i@, 8)
                &&& b.data@ == i@.subrange(10, 10 + dl)
                &&& b.working_counter == le_u16_at(i@, 10 + dl)
                &&& b.data_len == dl
            },
            brd_parse_stage(i@, self.idx) == ParseStage::Trailing ==> r matches Err(
                PduParseError::Incomplete,
            ),
            brd_parse_stage(i@, self.idx) != ParseStage::Trailing && brd_parse_stage(i@, self.idx)
                != ParseStage::Complete ==> (r matches Err(PduParseError::Parse(m)) && m@
                == parse_stage_name(brd_parse_stage(i@, self.idx))),
    {
        let n = i.len();
        if n < 1 || i[0] != 0x07 {
            return Err(PduParseError::Parse("command".to_owned()));
        }
        if n < 2 || i[1] != self.idx {
            return Err(PduParseError::Parse("index".to_owned()));
        }
        if n < 10 {
            return Err(PduParseError::Parse("header".to_owned()));
        }
        let adp = read_u16(i, 2);
        let ado = read_u16(i, 4);
        let packed = read_u16(i, 6);
        let irq = read_u16(i, 8);
        let data_len = packed & LEN_MASK;
        assert(packed & LEN_MASK == packed % 2048) by (bit_vector);
        let dl = data_len as usize;
        if n - 10 < dl {
            return Err(PduParseError::Parse("data".to_owned()));
        }
        let data = bytes_to_vec(slice_subrange(i, 10, 10 + dl));
        if n - 10 - dl < 2 {
            return Err(PduParseError::Parse("working counter".to_owned()));
        }
        let working_counter = read_u16(i, 10 + dl);
        if n - 10 - dl > 2 {
            return Err(PduParseError::Incomplete);
        }
        Ok(
            Brd {
                command: i[0],
                idx: i[1],
                adp,
                ado,
                packed,
                irq,
                data,
                working_counter,
                data_len,
            },
        )
    }

    /// Whether `other` answers this request: same command and index.
    pub fn is_response(&self, other: &Self) -> (r: bool)
        ensures
            r == (self.command == other.command && self.idx == other.idx),
    {
        self.command == other.command && self.idx == other.idx
    }

    /// The working counter.
    pub fn wkc(&self) -> (r: u16)
        ensures
            r == self.working_counter,
    {
        self.working_counter
    }
}

/// A single PDU of either kind.
#[derive(Debug)]
pub enum Pdu {
    /// Configured address physical read.
    Fprd(Fprd),
    /// Broadcast read.
    Brd(Brd),
}

impl Pdu {
    /// Length of the whole PDU in bytes.
    pub fn byte_len(&self) -> (r: u16)
        requires
            match self {
                Pdu::Fprd(c) => c.data_len + PDU_OVERHEAD <= u16::MAX,
                Pdu::Brd(c) => c.data_len + PDU_OVERHEAD <= u16::MAX,
            },
        ensures
            r == match self {
                Pdu::Fprd(c) => c.data_len + PDU_OVERHEAD,
                Pdu::Brd(c) => c.data_len + PDU_OVERHEAD,
            },
    {
        match self {
            Pdu::Fprd(c) => c.byte_len(),
            Pdu::Brd(c) => c.byte_len(),
        }
    }

    /// The bytes this PDU encodes to.
    pub open spec fn spec_bytes(&self) -> Seq<u8> {
        match self {
            Pdu::Fprd(c) => c.spec_bytes(),
            Pdu::Brd(c) => c.spec_bytes(),
        }
    }

    /// Write the PDU to the start of `buf`; fails, after writing what fits, if `buf` is too
    /// short.
    pub fn as_bytes(&self, buf: &mut [u8]) -> (r: Result<(), std::io::Error>)
        ensures
            final(buf)@ == written_prefix(old(buf)@, self.spec_bytes()),
            r is Ok <==> self.spec_bytes().len() <= old(buf)@.len(),
    {
        match self {
            Pdu::Fprd(c) => c.as_bytes(buf),
            Pdu::Brd(c) => c.as_bytes(buf),
        }
    }
}

/// A broadcast read request as written to the wire parses back as a response to itself, as a
/// SubDevice that adds nothing returns it: the header fields, the data length, `data_len` zero
/// bytes of data and the working counter all come back unchanged. This needs the length field to
/// hold the whole data length.
pub proof fn lemma_brd_request_parses(b: Brd)
    requires
        b.command == 0x07,
        b.data_len == b.packed % 2048,
    ensures
        brd_parse_stage(b.spec_bytes(), b.idx) == ParseStage::Complete,
        response_data_len(b.spec_bytes()) == b.data_len,
        b.spec_bytes()[0] == b.command,
        b.spec_bytes()[1] == b.idx,
        le_u16_at(b.spec_bytes(), 2) == b.adp,
        le_u16_at(b.spec_bytes(), 4) == b.ado,
        le_u16_at(b.spec_bytes(), 6) == b.packed,
        le_u16_at(b.spec_bytes(), 8) == b.irq,
        b.spec_bytes().subrange(10, 10 + b.data_len) == Seq::new(b.data_len as nat, |_i: int| 0u8),
        le_u16_at(b.spec_bytes(), 10 + b.data_len) == b.working_counter,
{
    let head = seq![b.command, b.idx];
    let zeros = Seq::new(b.data_len as nat, |_i: int| 0u8);
    let wkc = u16_le_bytes(b.working_counter);
    let s = b.spec_bytes();
    let p_adp = u16_le_bytes(b.adp);
    let p_ado = u16_le_bytes(b.ado);
    let p_packed = u16_le_bytes(b.packed);
    let p_irq = u16_le_bytes(b.irq);
    assert(s =~= head + p_adp + p_ado + p_packed + p_irq + zeros + wkc);
    lemma_u16_roundtrip(b.adp, head, p_ado + p_packed + p_irq + zeros + wkc);
    assert(head + p_adp + (p_ado + p_packed + p_irq + zeros + wkc) =~= s);
    lemma_u16_roundtrip(b.ado, head + p_adp, p_packed + p_irq + zeros + wkc);
    assert(head + p_adp + p_ado + (p_packed + p_irq + zeros + wkc) =~= s);
    lemma_u16_roundtrip(b.packed, head + p_adp + p_ado, p_irq + zeros + wkc);
    assert(head + p_adp + p_ado + p_packed + (p_irq + zeros + wkc) =~= s);
    lemma_u16_roundtrip(b.irq, head + p_adp + p_ado + p_packed, zeros + wkc);
    assert(head + p_adp + p_ado + p_packed + p_irq + (zeros + wkc) =~= s);
    let pre = head + p_adp + p_ado + p_packed + p_irq + zeros;
    lemma_u16_roundtrip(b.working_counter, pre, Seq::empty());
    assert(pre + wkc + Seq::<u8>::empty() =~= s);
    assert(s.subrange(10, 10 + b.data_len) =~= zeros);
}

} // verus!

