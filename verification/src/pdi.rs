//! Process Data Image (PDI) offsets and segments.
use vstd::prelude::*;
use core::ops::Range;

verus! {

/// A byte offset into the process data image.
#[derive(Default, Debug, Copy, Clone, PartialEq, Eq, Structural)]
pub struct PdiOffset {
    /// Start address in bytes.
    pub start_address: u32,
}

impl PdiOffset {
    /// Advance by `bits`, rounded up to whole bytes.
    pub fn increment_byte_aligned(self, bits: u16) -> (r: Self)
        requires
            self.start_address + (bits + 7) / 8 <= u32::MAX,
        ensures
            r.start_address == self.start_address + (bits + 7) / 8,
    {
        // Rounded up in 32 bits: the largest bit count still gives a whole number of bytes.
        let inc_bytes = ((bits as u32 + 7) / 8) as u16;
        self.increment_inner(0, inc_bytes)
    }

    /// Advance by `bytes`.
    pub fn increment(self, bytes: u16) -> (r: Self)
        requires
            self.start_address + bytes <= u32::MAX,
        ensures
            r.start_address == self.start_address + bytes,
    {
        self.increment_inner(0, bytes)
    }

    fn increment_inner(self, _inc_bits: u16, inc_bytes: u16) -> (r: Self)
        requires
            self.start_address + inc_bytes <= u32::MAX,
        ensures
            r.start_address == self.start_address + inc_bytes,
    {
        PdiOffset { start_address: self.start_address + inc_bytes as u32 }
    }

    /// The byte range from this offset up to `other`.
    pub fn up_to(self, other: Self) -> (r: Range<usize>)
        ensures
            r.start == self.start_address,
            r.end == other.start_address,
    {
        (self.start_address as usize)..(other.start_address as usize)
    }
}

/// A byte range of the process data image.
#[derive(Default, Debug, PartialEq, Eq)]
pub struct PdiSegment {
    /// The bytes of the segment.
    pub bytes: Range<usize>,
}

impl Clone for PdiSegment {
    fn clone(&self) -> (r: Self)
        ensures
            r == *self,
    {
        PdiSegment { bytes: self.bytes.start..self.bytes.end }
    }
}

impl PdiSegment {
    /// The number of bytes in the segment; zero when the range is empty or reversed.
    pub fn len(&self) -> (r: usize)
        ensures
            r == (if self.bytes.end > self.bytes.start {
                self.bytes.end - self.bytes.start
            } else {
                0
            }),
    {
        if self.bytes.end > self.bytes.start {
            self.bytes.end - self.bytes.start
        } else {
            0
        }
    }
}

} // verus!
