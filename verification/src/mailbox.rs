//! Mailbox header shared by all mailbox protocols.
use vstd::prelude::*;

pub mod coe;
use crate::wire::{
    le_u16_at, lemma_u16_roundtrip, read_u16, u16_le_bytes, u16_to_le, WireError,
};

verus! {

/// Mailbox priority, held in two bits.
#[derive(PartialEq, Eq, Structural, Debug, Copy, Clone)]
pub enum Priority {
    /// Lowest priority (the default).
    Lowest,
    /// Low priority.
    Low,
    /// High priority.
    High,
    /// Highest priority.
    Highest,
}

impl Default for Priority {
    fn default() -> (r: Self)
        ensures
            r == Priority::Lowest,
    {
        Priority::Lowest
    }
}

/// The priority named by a two bit value.
pub open spec fn priority_from_bits(n: u8) -> Priority {
    if n == 0 {
        Priority::Lowest
    } else if n == 1 {
        Priority::Low
    } else if n == 2 {
        Priority::High
    } else {
        Priority::Highest
    }
}

/// The two bit value of a priority.
pub open spec fn priority_to_bits(p: Priority) -> u8 {
    match p {
        Priority::Lowest => 0,
        Priority::Low => 1,
        Priority::High => 2,
        Priority::Highest => 3,
    }
}

impl Priority {
    /// Decode a priority from its two bit value.
    pub fn from_bits(n: u8) -> (r: Self)
        requires
            n < 4,
        ensures
            r == priority_from_bits(n),
    {
        if n == 0 {
            Priority::Lowest
        } else if n == 1 {
            Priority::Low
        } else if n == 2 {
            Priority::High
        } else {
            Priority::Highest
        }
    }

    /// The two bit value of this priority.
    pub fn to_bits(&self) -> (r: u8)
        ensures
            r == priority_to_bits(*self),
            r < 4,
    {
        match self {
            Priority::Lowest => 0,
            Priority::Low => 1,
            Priority::High => 2,
            Priority::Highest => 3,
        }
    }
}

/// Mailbox protocol type, held in four bits.
#[derive(PartialEq, Eq, Structural, Debug, Copy, Clone)]
pub enum MailboxType {
    /// error (ERR)
    Error,
    /// ADS over EtherCAT (AoE)
    Aoe,
    /// Ethernet over EtherCAT (EoE)
    Eoe,
    /// CAN application protocol over EtherCAT (CoE)
    Coe,
    /// File Access over EtherCAT (FoE)
    Foe,
    /// Servo profile over EtherCAT (SoE)
    Soe,
    /// Vendor specific
    VendorSpecific,
}

/// The mailbox type named by a four bit value, if any. Values 6 to 14 are reserved.
pub open spec fn mailbox_type_from_bits(n: u8) -> Option<MailboxType> {
    if n == 0 {
        Some(MailboxType::Error)
    } else if n == 1 {
        Some(MailboxType::Aoe)
    } else if n == 2 {
        Some(MailboxType::Eoe)
    } else if n == 3 {
        Some(MailboxType::Coe)
    } else if n == 4 {
        Some(MailboxType::Foe)
    } else if n == 5 {
        Some(MailboxType::Soe)
    } else if n == 15 {
        Some(MailboxType::VendorSpecific)
    } else {
        None
    }
}

/// The four bit value of a mailbox type.
pub open spec fn mailbox_type_to_bits(t: MailboxType) -> u8 {
    match t {
        MailboxType::Error => 0,
        MailboxType::Aoe => 1,
        MailboxType::Eoe => 2,
        MailboxType::Coe => 3,
        MailboxType::Foe => 4,
        MailboxType::Soe => 5,
        MailboxType::VendorSpecific => 15,
    }
}

impl MailboxType {
    /// Decode a mailbox type from its four bit value.
    pub fn from_bits(n: u8) -> (r: Option<Self>)
        ensures
            r == mailbox_type_from_bits(n),
    {
        if n == 0 {
            Some(MailboxType::Error)
        } else if n == 1 {
            Some(MailboxType::Aoe)
        } else if n == 2 {
            Some(MailboxType::Eoe)
        } else if n == 3 {
            Some(MailboxType::Coe)
        } else if n == 4 {
            Some(MailboxType::Foe)
        } else if n == 5 {
            Some(MailboxType::Soe)
        } else if n == 15 {
            Some(MailboxType::VendorSpecific)
        } else {
            None
        }
    }

    /// The four bit value of this mailbox type.
    pub fn to_bits(&self) -> (r: u8)
        ensures
            r == mailbox_type_to_bits(*self),
            r < 16,
            mailbox_type_from_bits(r) == Some(*self),
    {
        match self {
            MailboxType::Error => 0,
            MailboxType::Aoe => 1,
            MailboxType::Eoe => 2,
            MailboxType::Coe => 3,
            MailboxType::Foe => 4,
            MailboxType::Soe => 5,
            MailboxType::VendorSpecific => 15,
        }
    }
}

/// The mailbox counter after `counter`: counters run from 1 to 7 and wrap around to 1, as 0 is
/// reserved.
pub fn next_mailbox_counter(counter: u8) -> (r: u8)
    ensures
        r == (if counter >= 7 {
            1
        } else {
            counter + 1
        }),
        1 <= r <= 7,
{
    if counter >= 7 {
        1
    } else {
        counter + 1
    }
}

/// Packed length of a [`MailboxHeader`] in bytes.
pub const MAILBOX_HEADER_LEN: usize = 6;

/// Mailbox header.
///
/// Defined in ETG1000.6 under either `TMBXHEADER` or `MbxHeader` e.g. Table 29 - CoE Elements.
/// Bytes 0-1 hold the length, bytes 2-3 the address, bits 6-7 of byte 4 the priority, bits 0-3 of
/// byte 5 the type and bits 4-6 of byte 5 the counter.
#[derive(PartialEq, Eq, Structural, Debug, Copy, Clone)]
pub struct MailboxHeader {
    /// Mailbox data payload length.
    pub length: u16,
    /// Station address of the source.
    pub address: u16,
    /// Priority.
    pub priority: Priority,
    /// Protocol carried in the mailbox.
    pub mailbox_type: MailboxType,
    /// Mailbox counter from 1 to 7 inclusive. Wraps around to 1 when count exceeds 7. 0 is
    /// reserved.
    pub counter: u8,
}

/// The mailbox header that the first six bytes of `s` hold.
pub open spec fn spec_mailbox_header_unpack(s: Seq<u8>) -> Result<MailboxHeader, WireError> {
    if s.len() < MAILBOX_HEADER_LEN {
        Err(WireError::ReadBufferTooShort)
    } else {
        match mailbox_type_from_bits(s[5] % 16) {
            Some(t) => Ok(
                MailboxHeader {
                    length: le_u16_at(s, 0),
                    address: le_u16_at(s, 2),
                    priority: priority_from_bits(s[4] / 64),
                    mailbox_type: t,
                    counter: (s[5] / 16) % 8,
                },
            ),
            None => Err(WireError::InvalidValue),
        }
    }
}

impl MailboxHeader {
    /// The counter fits in its three bits.
    pub open spec fn wf(self) -> bool {
        self.counter < 8
    }

    /// The six bytes this header packs into; the counter is truncated to three bits.
    pub open spec fn spec_pack(self) -> Seq<u8> {
        u16_le_bytes(self.length) + u16_le_bytes(self.address) + seq![
            (64 * priority_to_bits(self.priority) as int) as u8,
            (mailbox_type_to_bits(self.mailbox_type) as int + 16 * ((self.counter % 8) as int)) as u8,
        ]
    }

    /// Pack into the six bytes sent on the wire.
    pub fn pack(&self) -> (r: [u8; 6])
        ensures
            r@ == self.spec_pack(),
    {
        let l = u16_to_le(self.length);
        let a = u16_to_le(self.address);
        let r = [
            l[0],
            l[1],
            a[0],
            a[1],
            64 * self.priority.to_bits(),
            self.mailbox_type.to_bits() + 16 * (self.counter % 8),
        ];
        assert(r@ =~= self.spec_pack());
        r
    }

    /// Unpack from the first six bytes of `buf`.
    pub fn unpack_from_slice(buf: &[u8]) -> (r: Result<Self, WireError>)
        ensures
            r == spec_mailbox_header_unpack(buf@),
            r matches Ok(v) ==> v.wf(),
    {
        if buf.len() < MAILBOX_HEADER_LEN {
            return Err(WireError::ReadBufferTooShort);
        }
        match MailboxType::from_bits(buf[5] % 16) {
            Some(t) => Ok(
                Self {
                    length: read_u16(buf, 0),
                    address: read_u16(buf, 2),
                    priority: Priority::from_bits(buf[4] / 64),
                    mailbox_type: t,
                    counter: (buf[5] / 16) % 8,
                },
            ),
            None => Err(WireError::InvalidValue),
        }
    }
}

/// Unpacking a packed mailbox header gives it back.
pub proof fn lemma_mailbox_header_roundtrip(h: MailboxHeader, rest: Seq<u8>)
    requires
        h.wf(),
    ensures
        spec_mailbox_header_unpack(h.spec_pack() + rest) == Ok::<MailboxHeader, WireError>(h),
{
    let p = h.spec_pack();
    let s = p + rest;
    let tail = seq![p[4], p[5]] + rest;
    lemma_u16_roundtrip(h.length, Seq::empty(), u16_le_bytes(h.address) + tail);
    lemma_u16_roundtrip(h.address, u16_le_bytes(h.length), tail);
    assert(Seq::<u8>::empty() + u16_le_bytes(h.length) + (u16_le_bytes(h.address) + tail) =~= s);
    assert(u16_le_bytes(h.length) + u16_le_bytes(h.address) + tail =~= s);
    assert(s[4] == p[4] && s[5] == p[5]);
    assert(s[5] % 16 == mailbox_type_to_bits(h.mailbox_type));
    assert((s[5] / 16) % 8 == h.counter);
    assert(s[4] / 64 == priority_to_bits(h.priority));
}

} // verus!
