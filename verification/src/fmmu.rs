//! Fieldbus Memory Management Unit (FMMU) configuration.
use vstd::prelude::*;
use crate::wire::{
    bit_set, le_u16_at, le_u32_at, lemma_pack_flags, lemma_u16_roundtrip, lemma_u32_roundtrip,
    pack_flags, pack_flags_exec, read_u16, read_u32, u16_le_bytes, u16_to_le, u32_le_bytes, u32_to_le,
    WireError,
};

verus! {

/// An FMMU configuration, sixteen bytes on the wire.
///
/// Bytes 0-3 hold the logical start address, 4-5 the length, the low three bits of bytes 6 and 7
/// the logical start and end bits, bytes 8-9 the physical start address and the low three bits of
/// byte 10 the physical start bit. Byte 11 holds the read (bit 0) and write (bit 1) enables and
/// byte 12 the enable flag (bit 0). The rest is reserved.
#[derive(Default, Debug, Copy, Clone, PartialEq, Eq, Structural)]
pub struct Fmmu {
    /// Logical start address.
    pub logical_start_address: u32,
    /// Length in bytes.
    pub length_bytes: u16,
    /// Logical start bit.
    pub logical_start_bit: u8,
    /// Logical end bit.
    pub logical_end_bit: u8,
    /// Physical start address.
    pub physical_start_address: u16,
    /// Physical start bit.
    pub physical_start_bit: u8,
    /// Read enable.
    pub read_enable: bool,
    /// Write enable.
    pub write_enable: bool,
    /// Enable.
    pub enable: bool,
}

/// The FMMU configuration the first sixteen bytes of `s` hold.
pub open spec fn spec_fmmu_unpack(s: Seq<u8>) -> Result<Fmmu, WireError> {
    if s.len() < Fmmu::PACKED_LEN {
        Err(WireError::ReadBufferTooShort)
    } else {
        Ok(
            Fmmu {
                logical_start_address: le_u32_at(s, 0),
                length_bytes: le_u16_at(s, 4),
                logical_start_bit: s[6] % 8,
                logical_end_bit: s[7] % 8,
                physical_start_address: le_u16_at(s, 8),
                physical_start_bit: s[10] % 8,
                read_enable: bit_set(s[11], 1),
                write_enable: bit_set(s[11], 2),
                enable: bit_set(s[12], 1),
            },
        )
    }
}

impl Fmmu {
    /// Packed length in bytes.
    pub const PACKED_LEN: usize = 16;

    /// The bit fields fit in their three bits.
    pub open spec fn wf(self) -> bool {
        self.logical_start_bit < 8 && self.logical_end_bit < 8 && self.physical_start_bit < 8
    }

    /// The sixteen bytes this configuration packs into; bit fields are truncated to three bits.
    pub open spec fn spec_pack(self) -> Seq<u8> {
        u32_le_bytes(self.logical_start_address) + u16_le_bytes(self.length_bytes) + seq![
            self.logical_start_bit % 8,
            self.logical_end_bit % 8,
        ] + u16_le_bytes(self.physical_start_address) + seq![
            self.physical_start_bit % 8,
            pack_flags(self.read_enable, self.write_enable, false, false, false, false, false, false),
            pack_flags(self.enable, false, false, false, false, false, false, false),
            0u8,
            0u8,
            0u8,
        ]
    }

    /// Pack into sixteen bytes.
    pub fn pack(&self) -> (r: [u8; 16])
        ensures
            r@ == self.spec_pack(),
    {
        let a = u32_to_le(self.logical_start_address);
        let l = u16_to_le(self.length_bytes);
        let p = u16_to_le(self.physical_start_address);
        let rw = pack_flags_exec(
            self.read_enable,
            self.write_enable,
            false,
            false,
            false,
            false,
            false,
            false,
        );
        let en = pack_flags_exec(self.enable, false, false, false, false, false, false, false);
        let r = [
            a[0],
            a[1],
            a[2],
            a[3],
            l[0],
            l[1],
            self.logical_start_bit % 8,
            self.logical_end_bit % 8,
            p[0],
            p[1],
            self.physical_start_bit % 8,
            rw,
            en,
            0,
            0,
            0,
        ];
        assert(r@ =~= self.spec_pack());
        r
    }

    /// Unpack from the first sixteen bytes of `buf`.
    pub fn unpack_from_slice(buf: &[u8]) -> (r: Result<Self, WireError>)
        ensures
            r == spec_fmmu_unpack(buf@),
            r matches Ok(v) ==> v.wf(),
    {
        if buf.len() < Self::PACKED_LEN {
            return Err(WireError::ReadBufferTooShort);
        }
        Ok(
            Fmmu {
                logical_start_address: read_u32(buf, 0),
                length_bytes: read_u16(buf, 4),
                logical_start_bit: buf[6] % 8,
                logical_end_bit: buf[7] % 8,
                physical_start_address: read_u16(buf, 8),
                physical_start_bit: buf[10] % 8,
                read_enable: (buf[11] / 1) % 2 == 1,
                write_enable: (buf[11] / 2) % 2 == 1,
                enable: (buf[12] / 1) % 2 == 1,
            },
        )
    }
}

/// Unpacking a packed FMMU configuration gives it back.
pub proof fn lemma_fmmu_roundtrip(f: Fmmu, rest: Seq<u8>)
    requires
        f.wf(),
    ensures
        spec_fmmu_unpack(f.spec_pack() + rest) == Ok::<Fmmu, WireError>(f),
{
    let s = f.spec_pack() + rest;
    let a = u32_le_bytes(f.logical_start_address);
    let l = u16_le_bytes(f.length_bytes);
    let bits = seq![f.logical_start_bit % 8, f.logical_end_bit % 8];
    let p = u16_le_bytes(f.physical_start_address);
    let tail = f.spec_pack().subrange(10, 16) + rest;
    lemma_u32_roundtrip(f.logical_start_address, Seq::empty(), l + bits + p + tail);
    assert(Seq::<u8>::empty() + a + (l + bits + p + tail) =~= s);
    lemma_u16_roundtrip(f.length_bytes, a, bits + p + tail);
    assert(a + l + (bits + p + tail) =~= s);
    lemma_u16_roundtrip(f.physical_start_address, a + l + bits, tail);
    assert(a + l + bits + p + tail =~= s);
    lemma_pack_flags(f.read_enable, f.write_enable, false, false, false, false, false, false);
    lemma_pack_flags(f.enable, false, false, false, false, false, false, false);
}

} // verus!
