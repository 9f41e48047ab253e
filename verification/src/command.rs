//! Raw EtherCAT commands, e.g. `LRW`, `BRD`, `APWR`, etc.
use vstd::prelude::*;
use crate::wire::{
    le_u16_at, le_u32_at, lemma_u16_roundtrip, lemma_u32_roundtrip, read_u16, read_u32, u16_le_bytes,
    u16_to_le, u32_le_bytes, u32_to_le,
};

mod reads;
mod writes;

pub use reads::{Reads, WrappedRead};
pub use writes::{WrappedWrite, Writes};

use vstd::std_specs::convert::FromSpecImpl;
use crate::error::Error;
use crate::text::{decimal, push_decimal};
use vstd::string::StringExecFns;

verus! {

/// No operation.
pub const NOP: u8 = 0x00;
/// Auto increment physical read.
pub const APRD: u8 = 0x01;
/// Configured address physical read.
pub const FPRD: u8 = 0x04;
/// Broadcast read.
pub const BRD: u8 = 0x07;
/// Logical memory read.
pub const LRD: u8 = 0x0A;
/// Broadcast write.
pub const BWR: u8 = 0x08;
/// Auto increment physical write.
pub const APWR: u8 = 0x02;
/// Configured address physical write.
pub const FPWR: u8 = 0x05;
/// Configured address physical read multiple write.
pub const FRMW: u8 = 0x0E;
/// Logical memory write.
pub const LWR: u8 = 0x0B;
/// Logical memory read write.
pub const LRW: u8 = 0x0c;

/// PDU command.
///
/// A command can be used in various different ways, to e.g. read a number or write a raw slice to a
/// SubDevice on the network. All EtherCAT commands are implemented. It is recommended to use the
/// methods on `Command` to create them.
#[derive(PartialEq, Eq, Structural, Debug, Copy, Clone)]
pub enum Command {
    /// No operation.
    Nop,
    /// Read commands.
    Read(Reads),
    /// Write commands.
    Write(Writes),
}

impl Default for Command {
    fn default() -> (r: Self)
        ensures
            r == Command::Nop,
    {
        Command::Nop
    }
}

impl From<Reads> for Command {
    fn from(value: Reads) -> (r: Self)
        ensures
            r == Command::Read(value),
    {
        Command::Read(value)
    }
}

impl FromSpecImpl<Reads> for Command {
    open spec fn obeys_from_spec() -> bool {
        true
    }

    open spec fn from_spec(v: Reads) -> Self {
        Command::Read(v)
    }
}

impl From<Writes> for Command {
    fn from(value: Writes) -> (r: Self)
        ensures
            r == Command::Write(value),
    {
        Command::Write(value)
    }
}

impl FromSpecImpl<Writes> for Command {
    open spec fn obeys_from_spec() -> bool {
        true
    }

    open spec fn from_spec(v: Writes) -> Self {
        Command::Write(v)
    }
}

/// Why a command could not be parsed from a code and its address bytes.
#[derive(PartialEq, Eq, Structural, Debug, Copy, Clone)]
pub enum CommandParseError {
    /// Fewer address bytes were given than the command needs.
    Incomplete,
    /// The command code does not name an EtherCAT command.
    InvalidCode(u8),
}

/// The command code of a command.
pub open spec fn spec_code(c: Command) -> u8 {
    match c {
        Command::Nop => NOP,
        Command::Read(r) => match r {
            Reads::Aprd { .. } => APRD,
            Reads::Fprd { .. } => FPRD,
            Reads::Brd { .. } => BRD,
            Reads::Lrd { .. } => LRD,
            Reads::Frmw { .. } => FRMW,
        },
        Command::Write(w) => match w {
            Writes::Bwr { .. } => BWR,
            Writes::Apwr { .. } => APWR,
            Writes::Fpwr { .. } => FPWR,
            Writes::Lwr { .. } => LWR,
            Writes::Lrw { .. } => LRW,
        },
    }
}

/// The four address bytes of a command as sent on the wire.
///
/// Position addressed commands carry the station address then the register, both little-endian;
/// logical commands carry a little-endian `u32`; `NOP` carries zeroes.
pub open spec fn spec_address(c: Command) -> Seq<u8> {
    match c {
        Command::Nop => seq![0u8, 0u8, 0u8, 0u8],
        Command::Read(Reads::Aprd { address, register })
        | Command::Read(Reads::Brd { address, register })
        | Command::Read(Reads::Fprd { address, register })
        | Command::Read(Reads::Frmw { address, register })
        | Command::Write(Writes::Apwr { address, register })
        | Command::Write(Writes::Fpwr { address, register })
        | Command::Write(Writes::Bwr { address, register }) => u16_le_bytes(address) + u16_le_bytes(
            register,
        ),
        Command::Read(Reads::Lrd { address })
        | Command::Write(Writes::Lwr { address })
        | Command::Write(Writes::Lrw { address }) => u32_le_bytes(address),
    }
}

/// The command a code and address bytes describe, with the number of address bytes it takes.
pub open spec fn spec_parse(code: u8, i: Seq<u8>) -> Result<(int, Command), CommandParseError> {
    let a = le_u16_at(i, 0);
    let r = le_u16_at(i, 2);
    if code == NOP {
        Ok((0, Command::Nop))
    } else if code != APRD && code != FPRD && code != BRD && code != LRD && code != BWR && code
        != APWR && code != FPWR && code != FRMW && code != LWR && code != LRW {
        Err(CommandParseError::InvalidCode(code))
    } else if i.len() < 4 {
        Err(CommandParseError::Incomplete)
    } else if code == LRD {
        Ok((4, Command::Read(Reads::Lrd { address: le_u32_at(i, 0) })))
    } else if code == LWR {
        Ok((4, Command::Write(Writes::Lwr { address: le_u32_at(i, 0) })))
    } else if code == LRW {
        Ok((4, Command::Write(Writes::Lrw { address: le_u32_at(i, 0) })))
    } else if code == APRD {
        Ok((4, Command::Read(Reads::Aprd { address: a, register: r })))
    } else if code == FPRD {
        Ok((4, Command::Read(Reads::Fprd { address: a, register: r })))
    } else if code == BRD {
        Ok((4, Command::Read(Reads::Brd { address: a, register: r })))
    } else if code == FRMW {
        Ok((4, Command::Read(Reads::Frmw { address: a, register: r })))
    } else if code == BWR {
        Ok((4, Command::Write(Writes::Bwr { address: a, register: r })))
    } else if code == APWR {
        Ok((4, Command::Write(Writes::Apwr { address: a, register: r })))
    } else {
        Ok((4, Command::Write(Writes::Fpwr { address: a, register: r })))
    }
}

impl Command {
    /// Create a broadcast read (BRD) command to the given register address.
    ///
    /// The configured station address is always zero when transmitted from the MainDevice.
    pub fn brd(register: u16) -> (r: Reads)
        ensures
            r == (Reads::Brd { address: 0, register }),
    {
        Reads::Brd { address: 0, register }
    }

    /// Create a broadcast write (BWR) command to the given register address.
    ///
    /// The configured station address is always zero when transmitted from the MainDevice.
    pub fn bwr(register: u16) -> (r: Writes)
        ensures
            r == (Writes::Bwr { address: 0, register }),
    {
        Writes::Bwr { address: 0, register }
    }

    /// FPRD.
    pub fn fprd(address: u16, register: u16) -> (r: Reads)
        ensures
            r == (Reads::Fprd { address, register }),
    {
        Reads::Fprd { address, register }
    }

    /// FPWR.
    pub fn fpwr(address: u16, register: u16) -> (r: Writes)
        ensures
            r == (Writes::Fpwr { address, register }),
    {
        Writes::Fpwr { address, register }
    }

    /// APRD. The position is negated, as each SubDevice increments the address it sees.
    pub fn aprd(address: u16, register: u16) -> (r: Reads)
        ensures
            r == (Reads::Aprd { address: ((65536 - address as int) % 65536) as u16, register }),
    {
        Reads::Aprd { address: 0u16.wrapping_sub(address), register }
    }

    /// APWR. The position is negated, as each SubDevice increments the address it sees.
    pub fn apwr(address: u16, register: u16) -> (r: Writes)
        ensures
            r == (Writes::Apwr { address: ((65536 - address as int) % 65536) as u16, register }),
    {
        Writes::Apwr { address: 0u16.wrapping_sub(address), register }
    }

    /// Configured address read, multiple write (FRMW).
    ///
    /// This can be used to distribute a value from one SubDevice to all others on the network, e.g.
    /// with distributed clocks.
    pub fn frmw(address: u16, register: u16) -> (r: Reads)
        ensures
            r == (Reads::Frmw { address, register }),
    {
        Reads::Frmw { address, register }
    }

    /// Logical Read Write (LRW), used mainly for sending and receiving PDI.
    pub fn lrw(address: u32) -> (r: Writes)
        ensures
            r == (Writes::Lrw { address }),
    {
        Writes::Lrw { address }
    }

    /// Logical Write (LWR).
    pub fn lwr(address: u32) -> (r: Writes)
        ensures
            r == (Writes::Lwr { address }),
    {
        Writes::Lwr { address }
    }

    /// Get just the command code for a command.
    pub fn code(&self) -> (r: u8)
        ensures
            r == spec_code(*self),
    {
        match self {
            Self::Nop => NOP,
            Self::Read(read) => match read {
                Reads::Aprd { .. } => APRD,
                Reads::Fprd { .. } => FPRD,
                Reads::Brd { .. } => BRD,
                Reads::Lrd { .. } => LRD,
                Reads::Frmw { .. } => FRMW,
            },
            Self::Write(write) => match write {
                Writes::Bwr { .. } => BWR,
                Writes::Apwr { .. } => APWR,
                Writes::Fpwr { .. } => FPWR,
                Writes::Lwr { .. } => LWR,
                Writes::Lrw { .. } => LRW,
            },
        }
    }

    /// Get the address value for the command.
    pub fn address(&self) -> (r: [u8; 4])
        ensures
            r@ == spec_address(*self),
    {
        match *self {
            Command::Nop => {
                let arr = [0x00u8; 4];
                assert(arr@ =~= seq![0u8, 0u8, 0u8, 0u8]);
                arr
            },
            Command::Read(Reads::Aprd { address, register })
            | Command::Read(Reads::Brd { address, register })
            | Command::Read(Reads::Fprd { address, register })
            | Command::Read(Reads::Frmw { address, register })
            | Command::Write(Writes::Apwr { address, register })
            | Command::Write(Writes::Fpwr { address, register })
            | Command::Write(Writes::Bwr { address, register }) => {
                let a = u16_to_le(address);
                let r = u16_to_le(register);
                let arr = [a[0], a[1], r[0], r[1]];
                assert(arr@ =~= u16_le_bytes(address) + u16_le_bytes(register));
                arr
            },
            Command::Read(Reads::Lrd { address })
            | Command::Write(Writes::Lwr { address })
            | Command::Write(Writes::Lrw { address }) => u32_to_le(address),
        }
    }

    /// Parse a command from a code and address data, returning the unconsumed input and the
    /// command.
    pub fn parse(command_code: u8, i: &[u8]) -> (r: Result<(&[u8], Command), CommandParseError>)
        ensures
            match spec_parse(command_code, i@) {
                Ok((n, c)) => r matches Ok((rest, rc)) && rc == c && rest@ == i@.subrange(
                    n,
                    i@.len() as int,
                ),
                Err(e) => r == Err::<(&[u8], Command), CommandParseError>(e),
            },
    {
        if command_code == NOP {
            return Ok((i, Command::Nop));
        }
        if command_code != APRD && command_code != FPRD && command_code != BRD && command_code
            != LRD && command_code != BWR && command_code != APWR && command_code != FPWR
            && command_code != FRMW && command_code != LWR && command_code != LRW {
            return Err(CommandParseError::InvalidCode(command_code));
        }
        if i.len() < 4 {
            return Err(CommandParseError::Incomplete);
        }
        let rest = vstd::slice::slice_subrange(i, 4, i.len());
        let a = read_u16(i, 0);
        let reg = read_u16(i, 2);
        let c = if command_code == LRD {
            Command::Read(Reads::Lrd { address: read_u32(i, 0) })
        } else if command_code == LWR {
            Command::Write(Writes::Lwr { address: read_u32(i, 0) })
        } else if command_code == LRW {
            Command::Write(Writes::Lrw { address: read_u32(i, 0) })
        } else if command_code == APRD {
            Command::Read(Reads::Aprd { address: a, register: reg })
        } else if command_code == FPRD {
            Command::Read(Reads::Fprd { address: a, register: reg })
        } else if command_code == BRD {
            Command::Read(Reads::Brd { address: a, register: reg })
        } else if command_code == FRMW {
            Command::Read(Reads::Frmw { address: a, register: reg })
        } else if command_code == BWR {
            Command::Write(Writes::Bwr { address: a, register: reg })
        } else if command_code == APWR {
            Command::Write(Writes::Apwr { address: a, register: reg })
        } else {
            Command::Write(Writes::Fpwr { address: a, register: reg })
        };
        Ok((rest, c))
    }
}

/// Parsing a command's own code and address bytes gives the command back and consumes exactly its
/// address bytes (none for `NOP`), whatever input follows.
pub proof fn lemma_parse_address_roundtrip(c: Command, rest: Seq<u8>)
    ensures
        spec_parse(spec_code(c), spec_address(c) + rest) == (if c is Nop {
            Ok::<(int, Command), CommandParseError>((0, c))
        } else {
            Ok((4, c))
        }),
{
    let s = spec_address(c) + rest;
    match c {
        Command::Nop => {},
        Command::Read(Reads::Lrd { address })
        | Command::Write(Writes::Lwr { address })
        | Command::Write(Writes::Lrw { address }) => {
            lemma_u32_roundtrip(address, Seq::empty(), rest);
            assert(Seq::<u8>::empty() + u32_le_bytes(address) + rest =~= s);
        },
        Command::Read(Reads::Aprd { address, register })
        | Command::Read(Reads::Brd { address, register })
        | Command::Read(Reads::Fprd { address, register })
        | Command::Read(Reads::Frmw { address, register })
        | Command::Write(Writes::Apwr { address, register })
        | Command::Write(Writes::Fpwr { address, register })
        | Command::Write(Writes::Bwr { address, register }) => {
            lemma_u16_roundtrip(address, Seq::empty(), u16_le_bytes(register) + rest);
            lemma_u16_roundtrip(register, u16_le_bytes(address), rest);
            assert(Seq::<u8>::empty() + u16_le_bytes(address) + (u16_le_bytes(register) + rest)
                =~= s);
            assert(u16_le_bytes(address) + u16_le_bytes(register) + rest =~= s);
        },
    }
}

/// Check the working counter a PDU came back with against the one expected, if one is.
pub fn check_working_counter(expected: Option<u16>, received: u16) -> (r: Result<(), Error>)
    ensures
        match expected {
            Some(e) => if e == received {
                r == Ok::<(), Error>(())
            } else {
                r == Err::<(), Error>(Error::WorkingCounter { expected: e, received, context: None })
            },
            None => r == Ok::<(), Error>(()),
        },
{
    match expected {
        Some(e) => if e == received {
            Ok(())
        } else {
            Err(Error::WorkingCounter { expected: e, received, context: None })
        },
        None => Ok(()),
    }
}

/// `name(addr a, reg r)`, the text of a command with an address and a register.
pub open spec fn addr_reg_text(name: Seq<char>, address: nat, register: nat) -> Seq<char> {
    name + "(addr "@ + decimal(address) + ", reg "@ + decimal(register) + ")"@
}

/// `name(addr a)`, the text of a logical command.
pub open spec fn addr_text(name: Seq<char>, address: nat) -> Seq<char> {
    name + "(addr "@ + decimal(address) + ")"@
}

/// The text of a command: its name, address and register, in decimal.
pub open spec fn command_text(c: Command) -> Seq<char> {
    match c {
        Command::Nop => "NOP"@,
        Command::Read(r) => match r {
            Reads::Aprd { address, register } => addr_reg_text("APRD"@, address as nat, register as nat),
            Reads::Fprd { address, register } => addr_reg_text("FPRD"@, address as nat, register as nat),
            Reads::Brd { address, register } => addr_reg_text("BRD"@, address as nat, register as nat),
            Reads::Lrd { address } => addr_text("LRD"@, address as nat),
            Reads::Frmw { address, register } => addr_reg_text("FRMW"@, address as nat, register as nat),
        },
        Command::Write(w) => match w {
            Writes::Bwr { address, register } => addr_reg_text("BWR"@, address as nat, register as nat),
            Writes::Apwr { address, register } => addr_reg_text("APWR"@, address as nat, register as nat),
            Writes::Fpwr { address, register } => addr_reg_text("FPWR"@, address as nat, register as nat),
            Writes::Lwr { address } => addr_text("LWR"@, address as nat),
            Writes::Lrw { address } => addr_text("LRW"@, address as nat),
        },
    }
}

/// Append `name(addr a, reg r)` to `s`.
fn push_addr_reg(s: &mut String, name: &str, address: u16, register: u16)
    ensures
        final(s)@ == old(s)@ + addr_reg_text(name@, address as nat, register as nat),
{
    s.append(name);
    s.append("(addr ");
    push_decimal(s, address as u64);
    s.append(", reg ");
    push_decimal(s, register as u64);
    s.append(")");
    assert(s@ =~= old(s)@ + addr_reg_text(name@, address as nat, register as nat));
}

/// Append `name(addr a)` to `s`.
fn push_addr(s: &mut String, name: &str, address: u32)
    ensures
        final(s)@ == old(s)@ + addr_text(name@, address as nat),
{
    s.append(name);
    s.append("(addr ");
    push_decimal(s, address as u64);
    s.append(")");
    assert(s@ =~= old(s)@ + addr_text(name@, address as nat));
}

impl Command {
    /// Append the text of this command to `s`.
    pub fn push_text(&self, s: &mut String)
        ensures
            final(s)@ == old(s)@ + command_text(*self),
    {
        match self {
            Command::Nop => s.append("NOP"),
            Command::Read(r) => match r {
                Reads::Aprd { address, register } => push_addr_reg(s, "APRD", *address, *register),
                Reads::Fprd { address, register } => push_addr_reg(s, "FPRD", *address, *register),
                Reads::Brd { address, register } => push_addr_reg(s, "BRD", *address, *register),
                Reads::Lrd { address } => push_addr(s, "LRD", *address),
                Reads::Frmw { address, register } => push_addr_reg(s, "FRMW", *address, *register),
            },
            Command::Write(w) => match w {
                Writes::Bwr { address, register } => push_addr_reg(s, "BWR", *address, *register),
                Writes::Apwr { address, register } => push_addr_reg(s, "APWR", *address, *register),
                Writes::Fpwr { address, register } => push_addr_reg(s, "FPWR", *address, *register),
                Writes::Lwr { address } => push_addr(s, "LWR", *address),
                Writes::Lrw { address } => push_addr(s, "LRW", *address),
            },
        }
    }

    /// The text of this command, e.g. `FPRD(addr 4096, reg 304)`.
    pub fn message(&self) -> (r: String)
        ensures
            r@ == command_text(*self),
    {
        let mut s = String::new();
        self.push_text(&mut s);
        assert(s@ =~= command_text(*self));
        s
    }
}

} // verus!


