//! SubDevice EEPROM (SII) access.
//!
//! The EEPROM is word addressed and read in chunks of four or eight bytes. A [`ChunkReader`]
//! keeps the byte position within one section; whoever owns the data source fetches the chunk
//! at [`ChunkReader::chunk_word`] and hands it to the reader.
use vstd::prelude::*;
use crate::eeprom::device_reader::SII_FIRST_CATEGORY_START;
use crate::eeprom::types::{
    category_type_from_u16, sii_general_of, spec_sync_manager_unpack, CategoryType, SiiGeneral,
    SyncManager, SII_GENERAL_LEN, SYNC_MANAGER_LEN,
};
use crate::wire::WireError;
use crate::collections::{sync_manager_list, sync_manager_list_new, sync_manager_list_push};
use crate::error::{EepromError, Error};
use crate::wire::{bytes_to_vec, le_u16_at, read_u16};
use vstd::slice::slice_subrange;

pub mod device_reader;
pub mod file_reader;
pub mod types;

verus! {

/// Reads bytes from one section of the EEPROM.
#[derive(Debug, Clone)]
pub struct ChunkReader<P> {
    /// The source of EEPROM chunks.
    pub reader: P,
    /// Current logical byte position in the entire address space: the next byte to return.
    pub pos: u16,
    /// The byte address the section ends before.
    pub end: u16,
}

impl<P> ChunkReader<P> {
    /// A reader over the `len_words` words from `start_word`.
    pub fn new(reader: P, start_word: u16, len_words: u16) -> (r: Self)
        requires
            start_word * 2 + len_words * 2 <= u16::MAX,
        ensures
            r.reader == reader,
            r.pos == start_word * 2,
            r.end == start_word * 2 + len_words * 2,
    {
        ChunkReader { reader, pos: start_word * 2, end: start_word * 2 + len_words * 2 }
    }

    /// Skip `skip` bytes (not words) ahead of the current position. Fails, moving nothing, unless
    /// the new position is still inside the section.
    pub fn skip_ahead_bytes(&mut self, skip: u16) -> (r: Result<(), Error>)
        requires
            old(self).pos + skip <= u16::MAX,
        ensures
            old(self).pos + skip >= old(self).end ==> r == Err::<(), Error>(
                Error::Eeprom(EepromError::SectionOverrun),
            ) && final(self).pos == old(self).pos,
            old(self).pos + skip < old(self).end ==> r == Ok::<(), Error>(()) && final(self).pos
                == old(self).pos + skip,
            final(self).end == old(self).end,
            final(self).reader == old(self).reader,
    {
        if self.pos + skip >= self.end {
            return Err(Error::Eeprom(EepromError::SectionOverrun));
        }
        self.pos = self.pos + skip;
        Ok(())
    }

    /// The word address of the chunk holding the current position.
    pub fn chunk_word(&self) -> (r: u16)
        ensures
            r == self.pos / 2,
    {
        self.pos / 2
    }

    /// Take the byte at the current position from `chunk`, the chunk read at
    /// [`ChunkReader::chunk_word`], and advance by one byte.
    pub fn read_byte(&mut self, chunk: &[u8]) -> (r: u8)
        requires
            chunk@.len() > old(self).pos % 2,
            old(self).pos < u16::MAX,
        ensures
            r == chunk@[(old(self).pos % 2) as int],
            final(self).pos == old(self).pos + 1,
            final(self).end == old(self).end,
            final(self).reader == old(self).reader,
    {
        // The position is in bytes but chunks start at words: an odd position skips the first
        // byte of the chunk.
        let skip = (self.pos % 2) as usize;
        self.pos = self.pos + 1;
        chunk[skip]
    }

    /// How many bytes a read into a buffer of `requested` bytes returns: no more than the
    /// section has left.
    pub fn read_len(&self, requested: usize) -> (r: usize)
        requires
            self.pos <= self.end,
        ensures
            r == (if requested < self.end - self.pos {
                requested
            } else {
                (self.end - self.pos) as usize
            }),
    {
        let max_read = (self.end - self.pos) as usize;
        if requested < max_read {
            requested
        } else {
            max_read
        }
    }

    /// Take up to `want` bytes from `chunk`, the chunk read at [`ChunkReader::chunk_word`],
    /// starting at the current position, and advance past them.
    pub fn read_step(&mut self, chunk: &[u8], want: usize) -> (r: Vec<u8>)
        requires
            chunk@.len() >= old(self).pos % 2,
            old(self).pos + (if want < chunk@.len() - old(self).pos % 2 {
                want as int
            } else {
                chunk@.len() - old(self).pos % 2
            }) <= u16::MAX,
        ensures
            ({
                let skip = old(self).pos % 2;
                let n = if want < chunk@.len() - skip {
                    want as int
                } else {
                    chunk@.len() - skip
                };
                &&& r@ == chunk@.subrange(skip as int, skip + n)
                &&& final(self).pos == old(self).pos + n
            }),
            final(self).end == old(self).end,
            final(self).reader == old(self).reader,
    {
        let skip = (self.pos % 2) as usize;
        let clen = chunk.len();
        let avail = clen - skip;
        let n = if want < avail {
            want
        } else {
            avail
        };
        let mut out: Vec<u8> = Vec::new();
        let mut i: usize = 0;
        while i < n
            invariant
                i <= n,
                clen == chunk@.len(),
                skip + n <= chunk@.len(),
                out@ == chunk@.subrange(skip as int, skip + i),
            decreases n - i,
        {
            out.push(chunk[skip + i]);
            i = i + 1;
            assert(out@ =~= chunk@.subrange(skip as int, skip + i));
        }
        self.pos = self.pos + n as u16;
        out
    }
}

} // verus!

verus! {

/// Where a category of the EEPROM lies.
#[derive(Debug, Copy, Clone, PartialEq, Eq, Structural)]
pub struct SiiCategory {
    /// The category type.
    pub category: CategoryType,
    /// Word address of the category's data.
    pub start: u16,
    /// Length of the data in words.
    pub len_words: u16,
}

/// Whether `s` is valid UTF-8, and the text it encodes. The standard library decides this.
pub uninterp spec fn utf8_decode(s: Seq<u8>) -> Option<Seq<char>>;

/// `core::str::from_utf8`, owned: the text of `bytes` if they are valid UTF-8. What counts as
/// valid is the standard library's decision, named [`utf8_decode`]; nothing more is stated.
#[verifier::external_body]
fn utf8_to_string(bytes: &[u8]) -> (r: Option<String>)
    ensures
        r is Some <==> utf8_decode(bytes@) is Some,
        r matches Some(s) ==> s@ == utf8_decode(bytes@)->0,
{
    core::str::from_utf8(bytes).ok().map(|s| s.to_owned())
}

/// The category type and data length of the category header at word `start`, with an unknown
/// type read as [`CategoryType::Nop`].
pub open spec fn category_header(image: Seq<u8>, start: int) -> (CategoryType, u16) {
    (
        match category_type_from_u16(le_u16_at(image, 2 * start)) {
            Some(c) => c,
            None => CategoryType::Nop,
        },
        le_u16_at(image, 2 * start + 2),
    )
}

/// The search for `wanted` from the category header at word `start` reads only headers inside
/// the image and never moves past the last word address.
pub open spec fn category_walk_defined(image: Seq<u8>, start: int, wanted: CategoryType) -> bool
    decreases 0x10000 - start,
{
    if start < 0 || start > 0xffff {
        false
    } else {
        let (t, len) = category_header(image, start);
        &&& 2 * start + 4 <= image.len()
        &&& start + 2 <= 0xffff
        &&& (t != wanted && t != CategoryType::End) ==> start + 2 + len <= 0xffff
            && category_walk_defined(image, start + 2 + len, wanted)
    }
}

/// The category `wanted`, found by walking the category headers from word `start`: the first
/// header of that type, or none once the end marker is reached.
pub open spec fn spec_category_walk(image: Seq<u8>, start: int, wanted: CategoryType) -> Option<
    SiiCategory,
>
    decreases 0x10000 - start,
{
    if start < 0 || start > 0xffff - 2 {
        None
    } else {
        let (t, len) = category_header(image, start);
        if t == wanted {
            Some(SiiCategory { category: t, start: (start + 2) as u16, len_words: len })
        } else if t == CategoryType::End {
            None
        } else if start + 2 + len > 0xffff {
            None
        } else {
            spec_category_walk(image, start + 2 + len, wanted)
        }
    }
}

/// Where the string search stops: the position after skipping `k` strings from `pos` in the
/// strings section `s`, or `None` when a length byte lies past the end.
pub open spec fn skip_strings(s: Seq<u8>, pos: int, k: int) -> Option<int>
    decreases k,
{
    if k <= 0 {
        Some(pos)
    } else if pos >= s.len() {
        None
    } else {
        let next = pos + 1 + s[pos];
        skip_strings(s, if next < s.len() { next } else { s.len() as int }, k - 1)
    }
}

/// The bytes of string `index` (counting from 1) of the strings section `s`, as `find_string`
/// reads them, for strings of at most `max_len` bytes.
pub open spec fn spec_string_bytes(s: Seq<u8>, index: u8, max_len: int) -> Result<
    Option<Seq<u8>>,
    Error,
> {
    if index == 0 {
        Ok(None)
    } else if s.len() == 0 {
        Err(Error::Eeprom(EepromError::SectionOverrun))
    } else if index - 1 > s[0] {
        Ok(None)
    } else {
        match skip_strings(s, 1, index - 1) {
            None => Err(Error::Eeprom(EepromError::SectionOverrun)),
            Some(pos) => if pos >= s.len() {
                Err(Error::Eeprom(EepromError::SectionOverrun))
            } else {
                let len = s[pos] as int;
                let from = pos + 1;
                if len <= max_len {
                    if from + len <= s.len() {
                        Ok(Some(s.subrange(from, from + len)))
                    } else {
                        Err(Error::Eeprom(EepromError::SectionUnderrun))
                    }
                } else if from + max_len <= s.len() {
                    Err(Error::Eeprom(EepromError::SectionOverrun))
                } else {
                    Err(Error::Eeprom(EepromError::SectionUnderrun))
                }
            },
        }
    }
}

/// A category found by walking the headers from word `start` is one of type `wanted`: its data
/// follows a header of that type, after `start`, and is as long as the header says. When the
/// header at `start` itself is of type `wanted`, that is the one found.
pub proof fn lemma_category_walk_finds(image: Seq<u8>, start: int, wanted: CategoryType)
    ensures
        spec_category_walk(image, start, wanted) matches Some(c) ==> {
            &&& c.category == wanted
            &&& c.start >= start + 2
            &&& category_header(image, c.start - 2).0 == wanted
            &&& category_header(image, c.start - 2).1 == c.len_words
        },
        0 <= start <= 0xffff - 2 && category_header(image, start).0 == wanted ==> spec_category_walk(
            image,
            start,
            wanted,
        ) == Some(
            SiiCategory {
                category: wanted,
                start: (start + 2) as u16,
                len_words: category_header(image, start).1,
            },
        ),
    decreases 0x10000 - start,
{
    if 0 <= start <= 0xffff - 2 {
        let (t, len) = category_header(image, start);
        if t != wanted && t != CategoryType::End && start + 2 + len <= 0xffff {
            lemma_category_walk_finds(image, start + 2 + len, wanted);
        }
    }
}

/// A strings section is a count byte followed by strings, each a length byte and that many
/// bytes. Index 0 names no string, nor does an index past the count; string 1 is the one after
/// the count byte, and string 2 starts right after string 1.
pub proof fn lemma_string_positions(s: Seq<u8>, max_len: int)
    ensures
        spec_string_bytes(s, 0, max_len) == Ok::<Option<Seq<u8>>, Error>(None),
        forall|index: u8|
            s.len() > 0 && index - 1 > s[0] ==> #[trigger] spec_string_bytes(s, index, max_len)
                == Ok::<Option<Seq<u8>>, Error>(None),
        s.len() >= 2 && s[1] <= max_len && 2 + s[1] <= s.len() ==> spec_string_bytes(s, 1, max_len)
            == Ok::<Option<Seq<u8>>, Error>(Some(s.subrange(2, 2 + s[1]))),
        s.len() >= 2 && s[0] >= 1 && 2 + s[1] < s.len() && s[2 + s[1]] <= max_len && 3 + s[1] + s[2
            + s[1]] <= s.len() ==> spec_string_bytes(s, 2, max_len) == Ok::<Option<Seq<u8>>, Error>(
            Some(s.subrange(3 + s[1], 3 + s[1] + s[2 + s[1]])),
        ),
{
    reveal_with_fuel(skip_strings, 3);
}

/// Category `wanted` can be looked up in `image`, and its data, if found, lies inside the image.
pub open spec fn category_readable(image: Seq<u8>, wanted: CategoryType) -> bool {
    &&& category_walk_defined(image, SII_FIRST_CATEGORY_START as int, wanted)
    &&& spec_category_walk(image, SII_FIRST_CATEGORY_START as int, wanted) matches Some(c) ==> 2
        * c.start + 2 * c.len_words <= image.len()
}

/// The data of category `wanted`, if `image` has it.
pub open spec fn category_data(image: Seq<u8>, wanted: CategoryType) -> Option<Seq<u8>> {
    match spec_category_walk(image, SII_FIRST_CATEGORY_START as int, wanted) {
        Some(c) => Some(image.subrange(2 * c.start, 2 * c.start + 2 * c.len_words)),
        None => None,
    }
}

/// The General category of `image`, where it is long enough, holds no reserved flag bits: its
/// bytes always parse.
pub open spec fn general_parses(image: Seq<u8>) -> bool {
    match category_data(image, CategoryType::General) {
        Some(d) => d.len() >= SII_GENERAL_LEN ==> d[5] < 0x40 && d[11] < 0x20,
        None => true,
    }
}

/// The `k`th eight byte sync manager record of a SyncManager category.
pub open spec fn sync_manager_record(s: Seq<u8>, k: int) -> Seq<u8> {
    s.subrange(SYNC_MANAGER_LEN * k, SYNC_MANAGER_LEN * k + SYNC_MANAGER_LEN)
}

/// A SyncManager category `s` holds at most eight whole records, each of which parses; trailing
/// bytes short of a record are ignored.
pub open spec fn sync_managers_parse(s: Seq<u8>) -> bool {
    &&& s.len() / (SYNC_MANAGER_LEN as nat) <= 8
    &&& forall|k: int|
        0 <= k < s.len() / (SYNC_MANAGER_LEN as nat) ==> spec_sync_manager_unpack(
            #[trigger] sync_manager_record(s, k),
        ) is Ok
}

/// The sync managers the records of a SyncManager category `s` describe, in order.
pub open spec fn sync_managers_of(s: Seq<u8>, r: Seq<SyncManager>) -> bool {
    &&& r.len() == s.len() / (SYNC_MANAGER_LEN as nat)
    &&& forall|k: int|
        0 <= k < r.len() ==> spec_sync_manager_unpack(#[trigger] sync_manager_record(s, k)) == Ok::<
            SyncManager,
            WireError,
        >(r[k])
}

/// Parse the records of a SyncManager category, eight bytes each.
pub fn parse_sync_managers(section: &[u8]) -> (r: heapless::Vec<SyncManager, 8>)
    requires
        sync_managers_parse(section@),
    ensures
        sync_managers_of(section@, sync_manager_list(r)),
{
    let n = section.len() / SYNC_MANAGER_LEN;
    let mut out = sync_manager_list_new();
    let mut k: usize = 0;
    while k < n
        invariant
            k <= n,
            n == section@.len() / (SYNC_MANAGER_LEN as nat),
            sync_managers_parse(section@),
            sync_manager_list(out).len() == k,
            forall|j: int|
                0 <= j < k ==> spec_sync_manager_unpack(#[trigger] sync_manager_record(section@, j))
                    == Ok::<SyncManager, WireError>(sync_manager_list(out)[j]),
        decreases n - k,
    {
        assert(SYNC_MANAGER_LEN * k + SYNC_MANAGER_LEN <= section@.len()) by (nonlinear_arith)
            requires
                k < n,
                n == section@.len() / 8,
                SYNC_MANAGER_LEN == 8,
        ;
        let record = slice_subrange(section, SYNC_MANAGER_LEN * k, SYNC_MANAGER_LEN * k + SYNC_MANAGER_LEN);
        assert(record@ == sync_manager_record(section@, k as int));
        match SyncManager::unpack_from_slice(record) {
            Ok(sm) => {
                let pushed = sync_manager_list_push(&mut out, sm);
                assert(pushed is Ok);
            },
            Err(_) => {
                assert(false);
            },
        }
        k = k + 1;
    }
    out
}

/// The contents of a SubDevice's EEPROM, as read from it.
#[derive(Debug, Clone)]
pub struct Eeprom {
    /// The EEPROM image, byte by byte.
    pub image: Vec<u8>,
}

impl Eeprom {
    /// Find a category by walking the category headers from the first category.
    pub fn find_eeprom_category_start(&self, category: CategoryType) -> (r: Result<
        Option<SiiCategory>,
        Error,
    >)
        requires
            category_walk_defined(self.image@, SII_FIRST_CATEGORY_START as int, category),
        ensures
            r == Ok::<Option<SiiCategory>, Error>(
                spec_category_walk(self.image@, SII_FIRST_CATEGORY_START as int, category),
            ),
    {
        let mut start: u16 = SII_FIRST_CATEGORY_START;
        loop
            invariant
                category_walk_defined(self.image@, start as int, category),
                spec_category_walk(self.image@, start as int, category) == spec_category_walk(
                    self.image@,
                    SII_FIRST_CATEGORY_START as int,
                    category,
                ),
            decreases 0x10000 - start,
        {
            let raw_type = read_u16(self.image.as_slice(), 2 * start as usize);
            let data_len = read_u16(self.image.as_slice(), 2 * start as usize + 2);
            let category_type = match CategoryType::from_u16(raw_type) {
                Some(c) => c,
                None => CategoryType::Nop,
            };
            let data_start = start + 2;
            if category_type == category {
                return Ok(Some(SiiCategory { category: category_type, start: data_start, len_words: data_len }));
            }
            if category_type == CategoryType::End {
                return Ok(None);
            }
            start = data_start + data_len;
        }
    }

    /// The bytes of a category's data.
    pub fn section(&self, category: &SiiCategory) -> (r: Vec<u8>)
        requires
            2 * category.start + 2 * category.len_words <= self.image@.len(),
        ensures
            r@ == self.image@.subrange(
                2 * category.start,
                2 * category.start + 2 * category.len_words,
            ),
    {
        let from = 2 * category.start as usize;
        let to = from + 2 * category.len_words as usize;
        bytes_to_vec(slice_subrange(self.image.as_slice(), from, to))
    }

    /// The data of category `wanted`, if the image has it.
    pub fn category_data(&self, wanted: CategoryType) -> (r: Option<Vec<u8>>)
        requires
            category_readable(self.image@, wanted),
        ensures
            match category_data(self.image@, wanted) {
                None => r is None,
                Some(d) => r matches Some(v) && v@ == d,
            },
    {
        match self.find_eeprom_category_start(wanted) {
            Ok(Some(c)) => Some(self.section(&c)),
            _ => None,
        }
    }

    /// The General category: device identity strings, supported protocols and port layout.
    pub fn general(&self) -> (r: Result<SiiGeneral, Error>)
        requires
            category_readable(self.image@, CategoryType::General),
            general_parses(self.image@),
        ensures
            match category_data(self.image@, CategoryType::General) {
                None => r == Err::<SiiGeneral, Error>(Error::Eeprom(EepromError::NoCategory)),
                Some(d) => if d.len() < SII_GENERAL_LEN {
                    r == Err::<SiiGeneral, Error>(Error::Eeprom(EepromError::SectionUnderrun))
                } else {
                    r matches Ok(g) && sii_general_of(d, g)
                },
            },
    {
        let data = match self.category_data(CategoryType::General) {
            Some(d) => d,
            None => {
                return Err(Error::Eeprom(EepromError::NoCategory));
            },
        };
        if data.len() < SII_GENERAL_LEN {
            return Err(Error::Eeprom(EepromError::SectionUnderrun));
        }
        match SiiGeneral::unpack_from_slice(data.as_slice()) {
            Ok(g) => Ok(g),
            Err(_) => {
                assert(false);
                Err(Error::Eeprom(EepromError::Decode))
            },
        }
    }

    /// The device name: the string the General category names, of at most `max_len` bytes.
    pub fn device_name(&self, max_len: usize) -> (r: Result<Option<String>, Error>)
        requires
            category_readable(self.image@, CategoryType::General),
            general_parses(self.image@),
            category_readable(self.image@, CategoryType::Strings),
        ensures
            match category_data(self.image@, CategoryType::General) {
                None => r == Err::<Option<String>, Error>(Error::Eeprom(EepromError::NoCategory)),
                Some(d) => if d.len() < SII_GENERAL_LEN {
                    r == Err::<Option<String>, Error>(Error::Eeprom(EepromError::SectionUnderrun))
                } else if d[3] == 0 {
                    r == Ok::<Option<String>, Error>(None)
                } else {
                    match category_data(self.image@, CategoryType::Strings) {
                        None => r == Ok::<Option<String>, Error>(None),
                        Some(s) => string_lookup(s, d[3], max_len as int, r),
                    }
                },
            },
    {
        let general = self.general()?;
        let name_idx = general.name_string_idx;
        // An index of zero names no string.
        if name_idx == 0 {
            return Ok(None);
        }
        match self.category_data(CategoryType::Strings) {
            Some(strings) => find_string(strings.as_slice(), name_idx, max_len),
            None => Ok(None),
        }
    }

    /// The sync managers the SyncManager category describes, or none if there is no such
    /// category.
    pub fn sync_managers(&self) -> (r: heapless::Vec<SyncManager, 8>)
        requires
            category_readable(self.image@, CategoryType::SyncManager),
            category_data(self.image@, CategoryType::SyncManager) matches Some(d)
                ==> sync_managers_parse(d),
        ensures
            match category_data(self.image@, CategoryType::SyncManager) {
                None => sync_manager_list(r).len() == 0,
                Some(d) => sync_managers_of(d, sync_manager_list(r)),
            },
    {
        match self.category_data(CategoryType::SyncManager) {
            Some(d) => parse_sync_managers(d.as_slice()),
            None => sync_manager_list_new(),
        }
    }
}

/// `r` is what looking up string `index` of the strings section `s` gives, for strings of at
/// most `max_len` bytes: the string's bytes decoded as UTF-8.
pub open spec fn string_lookup(s: Seq<u8>, index: u8, max_len: int, r: Result<Option<String>, Error>) -> bool {
    match spec_string_bytes(s, index, max_len) {
        Err(e) => r == Err::<Option<String>, Error>(e),
        Ok(None) => r == Ok::<Option<String>, Error>(None),
        Ok(Some(b)) => match utf8_decode(b) {
            None => r == Err::<Option<String>, Error>(Error::Eeprom(EepromError::Decode)),
            Some(text) => r matches Ok(Some(st)) && st@ == text,
        },
    }
}

/// Read string `index` (counting from 1) of a strings section: index 0 names no string, an index
/// past the count byte gives none, and a string must fit in `max_len` bytes and be valid UTF-8.
pub fn find_string(section: &[u8], index: u8, max_len: usize) -> (r: Result<Option<String>, Error>)
    ensures
        string_lookup(section@, index, max_len as int, r),
{
    if index == 0 {
        return Ok(None);
    }
    let search_index = index - 1;
    let n = section.len();
    if n == 0 {
        return Err(Error::Eeprom(EepromError::SectionOverrun));
    }
    let num_strings = section[0];
    if search_index > num_strings {
        return Ok(None);
    }
    let mut pos: usize = 1;
    let mut k: u8 = 0;
    while k < search_index
        invariant
            k <= search_index,
            index >= 1,
            search_index == index - 1,
            n == section@.len(),
            n > 0,
            search_index <= section@[0],
            pos <= n,
            skip_strings(section@, 1, search_index as int) == skip_strings(
                section@,
                pos as int,
                (search_index - k) as int,
            ),
        decreases search_index - k,
    {
        if pos >= n {
            assert(skip_strings(section@, pos as int, (search_index - k) as int) is None);
            return Err(Error::Eeprom(EepromError::SectionOverrun));
        }
        let string_len = section[pos] as usize;
        pos = pos + 1;
        pos = if string_len < n - pos {
            pos + string_len
        } else {
            n
        };
        k = k + 1;
    }
    if pos >= n {
        return Err(Error::Eeprom(EepromError::SectionOverrun));
    }
    let string_len = section[pos] as usize;
    let from = pos + 1;
    if string_len <= max_len {
        if string_len <= n - from {
            match utf8_to_string(slice_subrange(section, from, from + string_len)) {
                Some(s) => Ok(Some(s)),
                None => Err(Error::Eeprom(EepromError::Decode)),
            }
        } else {
            Err(Error::Eeprom(EepromError::SectionUnderrun))
        }
    } else if max_len <= n - from {
        Err(Error::Eeprom(EepromError::SectionOverrun))
    } else {
        Err(Error::Eeprom(EepromError::SectionUnderrun))
    }
}

} // verus!
