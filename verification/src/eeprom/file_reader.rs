//! An EEPROM data source backed by an EEPROM image instead of a real device.
use vstd::prelude::*;
use vstd::slice::slice_subrange;
use crate::wire::bytes_to_vec;

verus! {

/// An EEPROM image that returns chunks of `CHUNK` bytes.
#[derive(Debug, Clone, Copy)]
pub struct EepromFile<const CHUNK: usize> {
    /// The image.
    pub bytes: &'static [u8],
}

impl EepromFile<8> {
    /// An EEPROM image reader that returns chunks of 8 bytes.
    pub fn new(bytes: &'static [u8]) -> (r: Self)
        ensures
            r.bytes@ == bytes@,
    {
        EepromFile { bytes }
    }
}

impl EepromFile<4> {
    /// An EEPROM image reader that returns chunks of 4 bytes.
    pub fn new_short(bytes: &'static [u8]) -> (r: Self)
        ensures
            r.bytes@ == bytes@,
    {
        EepromFile { bytes }
    }
}

/// The number of bytes a read at `start_word` returns from an image of `file_len` bytes: the
/// chunk size, or what is left of the image.
pub open spec fn chunk_read_len(chunk: int, file_len: int, start_word: int) -> int {
    if chunk < file_len - 2 * start_word {
        chunk
    } else {
        file_len - 2 * start_word
    }
}

impl<const CHUNK: usize> EepromFile<CHUNK> {
    /// Read the chunk starting at word `start_word`. Near the end of the image it may be shorter
    /// than `CHUNK`, but it is always four or eight bytes.
    pub fn read_chunk(&self, start_word: u16) -> (r: Vec<u8>)
        requires
            start_word * 2 <= u16::MAX,
            start_word * 2 <= self.bytes@.len(),
            chunk_read_len(CHUNK as int, self.bytes@.len() as int, start_word as int) == 4
                || chunk_read_len(CHUNK as int, self.bytes@.len() as int, start_word as int) == 8,
        ensures
            r@ == self.bytes@.subrange(
                start_word * 2,
                start_word * 2 + chunk_read_len(CHUNK as int, self.bytes@.len() as int, start_word as int),
            ),
    {
        let start = (start_word * 2) as usize;
        let left = self.bytes.len() - start;
        let len = if CHUNK < left {
            CHUNK
        } else {
            left
        };
        bytes_to_vec(slice_subrange(self.bytes, start, start + len))
    }

    /// There are no errors to clear in an image.
    pub fn clear_errors(&self) -> (r: Result<(), crate::error::Error>)
        ensures
            r is Ok,
    {
        Ok(())
    }
}

} // verus!
