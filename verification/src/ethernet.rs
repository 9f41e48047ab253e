//! Ethernet II frames.
use vstd::prelude::*;
use crate::error::{Error, PduError};
use vstd::slice::slice_subrange;

verus! {

/// A six-octet Ethernet II address.
#[derive(Debug, Hash, PartialEq, Eq, PartialOrd, Ord, Clone, Copy, Default)]
pub struct EthernetAddress(pub [u8; 6]);

impl EthernetAddress {
    /// The broadcast address, all ones.
    pub fn broadcast() -> (r: EthernetAddress)
        ensures
            r.0@ == seq![0xffu8, 0xffu8, 0xffu8, 0xffu8, 0xffu8, 0xffu8],
    {
        let r = EthernetAddress([0xff; 6]);
        assert(r.0@ =~= seq![0xffu8, 0xffu8, 0xffu8, 0xffu8, 0xffu8, 0xffu8]);
        r
    }

    /// Construct an Ethernet address from six octets, in big-endian order.
    pub fn from_bytes(data: &[u8]) -> (r: EthernetAddress)
        requires
            data@.len() == 6,
        ensures
            r.0@ == data@,
    {
        let r = EthernetAddress([data[0], data[1], data[2], data[3], data[4], data[5]]);
        assert(r.0@ =~= data@);
        r
    }

    /// The address as a sequence of octets, in big-endian order.
    pub fn as_bytes(&self) -> (r: &[u8])
        ensures
            r@ == self.0@,
    {
        self.0.as_slice()
    }
}

/// Length of the Ethernet II header: destination, source and EtherType.
pub const ETHERNET_HEADER_LEN: usize = 14;

/// `s` with the bytes from `start` replaced by `v`.
pub open spec fn splice(s: Seq<u8>, start: int, v: Seq<u8>) -> Seq<u8> {
    s.subrange(0, start) + v + s.subrange(start + v.len(), s.len() as int)
}

/// The big-endian `u16` at byte offset `i` of `s`.
pub open spec fn be_u16_at(s: Seq<u8>, i: int) -> u16 {
    (256 * (s[i] as int) + s[i + 1] as int) as u16
}

/// Big-endian bytes of a `u16`.
pub open spec fn u16_be_bytes(v: u16) -> Seq<u8> {
    seq![(v / 256) as u8, (v % 256) as u8]
}

/// A read/write wrapper around an Ethernet II frame buffer.
#[derive(Debug, Clone)]
pub struct EthernetFrame {
    buffer: Vec<u8>,
}

impl View for EthernetFrame {
    type V = Seq<u8>;

    /// The frame's bytes.
    closed spec fn view(&self) -> Seq<u8> {
        self.buffer@
    }
}

impl EthernetFrame {
    /// Imbue a raw octet buffer with Ethernet frame structure.
    pub fn new_unchecked(buffer: Vec<u8>) -> (r: EthernetFrame)
        ensures
            r@ == buffer@,
    {
        EthernetFrame { buffer }
    }

    /// A frame over `buffer`, if it is long enough to hold the header.
    pub fn new_checked(buffer: Vec<u8>) -> (r: Result<EthernetFrame, Error>)
        ensures
            buffer@.len() >= ETHERNET_HEADER_LEN ==> (r matches Ok(f) && f@ == buffer@),
            buffer@.len() < ETHERNET_HEADER_LEN ==> r == Err::<EthernetFrame, Error>(
                Error::Pdu(PduError::Ethernet),
            ),
    {
        let packet = Self::new_unchecked(buffer);
        match packet.check_len() {
            Ok(()) => Ok(packet),
            Err(e) => Err(e),
        }
    }

    /// Check that the buffer holds a whole header, so that no accessor will fail.
    pub fn check_len(&self) -> (r: Result<(), Error>)
        ensures
            self@.len() >= ETHERNET_HEADER_LEN ==> r == Ok::<(), Error>(()),
            self@.len() < ETHERNET_HEADER_LEN ==> r == Err::<(), Error>(
                Error::Pdu(PduError::Ethernet),
            ),
    {
        if self.buffer.len() < ETHERNET_HEADER_LEN {
            Err(Error::Pdu(PduError::Ethernet))
        } else {
            Ok(())
        }
    }

    /// Consume the frame, returning the underlying buffer.
    pub fn into_inner(self) -> (r: Vec<u8>)
        ensures
            r@ == self@,
    {
        self.buffer
    }

    /// The length of a frame header.
    pub fn header_len() -> (r: usize)
        ensures
            r == ETHERNET_HEADER_LEN,
    {
        ETHERNET_HEADER_LEN
    }

    /// The length of a buffer required to hold a frame with a payload of the given length.
    pub fn buffer_len(payload_len: usize) -> (r: usize)
        requires
            ETHERNET_HEADER_LEN + payload_len <= usize::MAX,
        ensures
            r == ETHERNET_HEADER_LEN + payload_len,
    {
        ETHERNET_HEADER_LEN + payload_len
    }

    /// The destination address field.
    pub fn dst_addr(&self) -> (r: EthernetAddress)
        requires
            self@.len() >= 6,
        ensures
            r.0@ == self@.subrange(0, 6),
    {
        EthernetAddress::from_bytes(slice_subrange(self.buffer.as_slice(), 0, 6))
    }

    /// The source address field.
    pub fn src_addr(&self) -> (r: EthernetAddress)
        requires
            self@.len() >= 12,
        ensures
            r.0@ == self@.subrange(6, 12),
    {
        EthernetAddress::from_bytes(slice_subrange(self.buffer.as_slice(), 6, 12))
    }

    /// The EtherType field, big-endian, or zero when the buffer is too short to hold it.
    pub fn ethertype(&self) -> (r: u16)
        ensures
            r == (if self@.len() >= 14 {
                be_u16_at(self@, 12)
            } else {
                0
            }),
    {
        if self.buffer.len() >= 14 {
            256 * (self.buffer[12] as u16) + self.buffer[13] as u16
        } else {
            0
        }
    }

    /// The payload: everything after the header.
    pub fn payload(&self) -> (r: &[u8])
        requires
            self@.len() >= ETHERNET_HEADER_LEN,
        ensures
            r@ == self@.subrange(ETHERNET_HEADER_LEN as int, self@.len() as int),
    {
        slice_subrange(self.buffer.as_slice(), ETHERNET_HEADER_LEN, self.buffer.len())
    }

    /// The payload, to be written in place: everything after the header. The header stays as it
    /// was, and the frame ends with what the payload holds when the borrow ends.
    pub fn payload_mut(&mut self) -> (r: &mut [u8])
        requires
            old(self)@.len() >= ETHERNET_HEADER_LEN,
        ensures
            r@ == old(self)@.subrange(ETHERNET_HEADER_LEN as int, old(self)@.len() as int),
            final(self)@ == old(self)@.subrange(0, ETHERNET_HEADER_LEN as int) + final(r)@,
    {
        let (_header, payload) = self.buffer.as_mut_slice().split_at_mut(ETHERNET_HEADER_LEN);
        payload
    }

    /// Copy `v` into the buffer from byte `start`.
    fn write_bytes(&mut self, start: usize, v: &[u8])
        requires
            start + v@.len() <= old(self)@.len(),
        ensures
            final(self)@ == splice(old(self)@, start as int, v@),
    {
        let n = self.buffer.len();
        let mut i: usize = 0;
        while i < v.len()
            invariant
                i <= v@.len(),
                n == old(self)@.len(),
                start + v@.len() <= old(self)@.len(),
                self@.len() == old(self)@.len(),
                forall|k: int|
                    0 <= k < self@.len() ==> #[trigger] self@[k] == (if start <= k < start + i {
                        v@[k - start]
                    } else {
                        old(self)@[k]
                    }),
            decreases v@.len() - i,
        {
            self.buffer.set(start + i, v[i]);
            i = i + 1;
        }
        assert(self@ =~= splice(old(self)@, start as int, v@));
    }

    /// Set the destination address field.
    pub fn set_dst_addr(&mut self, value: EthernetAddress)
        requires
            old(self)@.len() >= 6,
        ensures
            final(self)@ == splice(old(self)@, 0, value.0@),
    {
        self.write_bytes(0, value.as_bytes());
    }

    /// Set the source address field.
    pub fn set_src_addr(&mut self, value: EthernetAddress)
        requires
            old(self)@.len() >= 12,
        ensures
            final(self)@ == splice(old(self)@, 6, value.0@),
    {
        self.write_bytes(6, value.as_bytes());
    }

    /// Set the EtherType field, big-endian.
    pub fn set_ethertype(&mut self, value: u16)
        requires
            old(self)@.len() >= 14,
        ensures
            final(self)@ == splice(old(self)@, 12, u16_be_bytes(value)),
    {
        let b = [(value / 256) as u8, (value % 256) as u8];
        assert(b@ =~= u16_be_bytes(value));
        self.write_bytes(12, b.as_slice());
    }
}

/// Each header field of a frame reads back what was last written to it, and writing one field
/// leaves the others and the payload unchanged.
pub proof fn lemma_ethernet_set_get(s: Seq<u8>, dst: EthernetAddress, src: EthernetAddress, ethertype: u16)
    requires
        s.len() >= ETHERNET_HEADER_LEN,
    ensures
        splice(s, 0, dst.0@).subrange(0, 6) == dst.0@,
        splice(s, 0, dst.0@).subrange(6, s.len() as int) == s.subrange(6, s.len() as int),
        splice(s, 6, src.0@).subrange(6, 12) == src.0@,
        splice(s, 6, src.0@).subrange(0, 6) == s.subrange(0, 6),
        splice(s, 6, src.0@).subrange(12, s.len() as int) == s.subrange(12, s.len() as int),
        be_u16_at(splice(s, 12, u16_be_bytes(ethertype)), 12) == ethertype,
        splice(s, 12, u16_be_bytes(ethertype)).subrange(0, 12) == s.subrange(0, 12),
        splice(s, 12, u16_be_bytes(ethertype)).subrange(14, s.len() as int) == s.subrange(
            14,
            s.len() as int,
        ),
{
    assert(dst.0@.len() == 6);
    assert(src.0@.len() == 6);
    assert(splice(s, 0, dst.0@).subrange(0, 6) =~= dst.0@);
    assert(splice(s, 0, dst.0@).subrange(6, s.len() as int) =~= s.subrange(6, s.len() as int));
    assert(splice(s, 6, src.0@).subrange(6, 12) =~= src.0@);
    assert(splice(s, 6, src.0@).subrange(0, 6) =~= s.subrange(0, 6));
    assert(splice(s, 6, src.0@).subrange(12, s.len() as int) =~= s.subrange(12, s.len() as int));
    let e = splice(s, 12, u16_be_bytes(ethertype));
    assert(e[12] == (ethertype / 256) as u8 && e[13] == (ethertype % 256) as u8);
    assert(e.subrange(0, 12) =~= s.subrange(0, 12));
    assert(e.subrange(14, s.len() as int) =~= s.subrange(14, s.len() as int));
}

} // verus!
