//! Object dictionary items and PDO assignment descriptions.
use vstd::prelude::*;
use crate::convenience::field::{DType, Field};

verus! {

/// An object dictionary entry at an index and subindex, with the place its value takes in the
/// process data.
#[derive(Copy)]
pub struct SubItem<T: DType> {
    /// Object index.
    pub index: u16,
    /// Object subindex.
    pub sub: u8,
    /// Place of the value in the process data.
    pub field: Field<T>,
}

impl<T: DType> Clone for SubItem<T> {
    fn clone(&self) -> (r: Self)
        ensures
            r.index == self.index,
            r.sub == self.sub,
            r.field.byte == self.field.byte,
            r.field.bit == self.field.bit,
            r.field.bitlen == self.field.bitlen,
    {
        SubItem { index: self.index, sub: self.sub, field: self.field.clone() }
    }
}

/// A PDO whose entries can be configured.
#[derive(Clone, Copy, Debug, PartialEq, Eq, Structural)]
pub struct ConfigurablePdo {
    /// PDO index.
    pub index: u16,
    /// Maximum number of entries.
    pub num: u8,
}

/// A sync manager whose PDO assignment can be configured.
#[derive(Clone, Copy, Debug, PartialEq, Eq, Structural)]
pub struct SyncManager {
    /// Assignment object index.
    pub index: u16,
    /// Maximum number of PDOs.
    pub num: u8,
}

/// A value written to an object dictionary entry.
#[derive(Clone, Copy, Debug, PartialEq, Eq, Structural)]
pub enum SdoValue {
    /// One byte.
    U8(u8),
    /// Two bytes.
    U16(u16),
    /// Four bytes.
    U32(u32),
}

/// A write to an object dictionary entry.
#[derive(Clone, Copy, Debug, PartialEq, Eq, Structural)]
pub struct SdoWrite {
    /// Object index.
    pub index: u16,
    /// Object subindex.
    pub sub_index: u8,
    /// The value.
    pub value: SdoValue,
}

/// The PDO mapping entry code of an object: index, subindex and bit length (modulo 256).
pub open spec fn spec_entry_code(index: u16, sub: u8, bitlen: usize) -> u32 {
    (index as int * 0x10000 + sub as int * 0x100 + bitlen as int % 256) as u32
}

/// An entry code holds the object's index in its top sixteen bits, its subindex in the next
/// eight and its bit length, modulo 256, in the lowest eight; two entries have the same code only
/// when these are the same.
pub proof fn lemma_entry_code_fields(index: u16, sub: u8, bitlen: usize)
    ensures
        spec_entry_code(index, sub, bitlen) / 0x10000 == index,
        spec_entry_code(index, sub, bitlen) / 0x100 % 0x100 == sub,
        spec_entry_code(index, sub, bitlen) % 0x100 == bitlen % 256,
{
    let low = bitlen as int % 256;
    let v = index as int * 0x10000 + sub as int * 0x100 + low;
    assert(v % 256 == low && v / 0x10000 == index && v / 0x100 % 0x100 == sub)
        by (nonlinear_arith)
        requires
            v == index as int * 0x10000 + sub as int * 0x100 + low,
            0 <= low < 256,
            0 <= index < 0x10000,
            0 <= sub < 0x100,
    ;
}

/// The PDO mapping entry code of an object dictionary item.
pub fn pdo_entry_code<T: DType>(sdo: &SubItem<T>) -> (r: u32)
    ensures
        r == spec_entry_code(sdo.index, sdo.sub, sdo.field.bitlen),
{
    (sdo.index as u32) * 0x10000 + (sdo.sub as u32) * 0x100 + (sdo.field.bitlen % 256) as u32
}

/// The PDO assignment of a sync manager being written: the process data offset reached and the
/// number of PDOs assigned so far.
#[derive(Clone, Copy, Debug, PartialEq, Eq, Structural)]
pub struct SyncMapping {
    /// The sync manager being assigned.
    pub manager: SyncManager,
    /// Byte offset in the process data of the next entry.
    pub offset: usize,
    /// Number of PDOs assigned so far.
    pub num: u8,
}

/// The entries of one PDO being written.
#[derive(Clone, Copy, Debug, PartialEq, Eq, Structural)]
pub struct PdoMapping {
    /// The PDO being configured.
    pub pdo: ConfigurablePdo,
    /// Number of entries so far.
    pub num: u8,
}

impl SyncMapping {
    /// Start assigning PDOs to `manager`: the assignment count is first cleared.
    pub fn new(manager: SyncManager) -> (r: (Self, SdoWrite))
        ensures
            r.0 == (SyncMapping { manager, offset: 0, num: 0 }),
            r.1 == (SdoWrite { index: manager.index, sub_index: 0, value: SdoValue::U8(0) }),
    {
        (
            SyncMapping { manager, offset: 0, num: 0 },
            SdoWrite { index: manager.index, sub_index: 0, value: SdoValue::U8(0) },
        )
    }

    /// Assign `pdo` as the next PDO: write its index to the next subindex, then clear the PDO's
    /// own entry count.
    pub fn push(&mut self, pdo: &ConfigurablePdo) -> (r: (PdoMapping, SdoWrite, SdoWrite))
        requires
            old(self).num < old(self).manager.num,
        ensures
            final(self).num == old(self).num + 1,
            final(self).manager == old(self).manager,
            final(self).offset == old(self).offset,
            r.0 == (PdoMapping { pdo: *pdo, num: 0 }),
            r.1 == (SdoWrite {
                index: old(self).manager.index,
                sub_index: (old(self).num + 1) as u8,
                value: SdoValue::U16(pdo.index),
            }),
            r.2 == (SdoWrite { index: pdo.index, sub_index: 0, value: SdoValue::U8(0) }),
    {
        let w = SdoWrite {
            index: self.manager.index,
            sub_index: self.num + 1,
            value: SdoValue::U16(pdo.index),
        };
        self.num = self.num + 1;
        (
            PdoMapping { pdo: *pdo, num: 0 },
            w,
            SdoWrite { index: pdo.index, sub_index: 0, value: SdoValue::U8(0) },
        )
    }

    /// Finish the assignment: write the number of PDOs assigned.
    pub fn finish(&self) -> (r: SdoWrite)
        ensures
            r == (SdoWrite { index: self.manager.index, sub_index: 0, value: SdoValue::U8(self.num) }),
    {
        SdoWrite { index: self.manager.index, sub_index: 0, value: SdoValue::U8(self.num) }
    }
}

impl PdoMapping {
    /// Map `sdo` as the next entry: write its entry code, and place it at the current process
    /// data offset, which then grows by the entry's bit length plus one, in whole bytes.
    pub fn push<T: DType>(&mut self, mapping: &mut SyncMapping, sdo: &SubItem<T>) -> (r: (
        Field<T>,
        SdoWrite,
    ))
        requires
            old(self).num < old(self).pdo.num,
            old(mapping).offset + (sdo.field.bitlen + 1) / 8 <= usize::MAX,
            sdo.field.bitlen + 1 <= usize::MAX,
        ensures
            r.0.byte == old(mapping).offset && r.0.bit == 0 && r.0.bitlen == sdo.field.bitlen,
            r.1 == (SdoWrite {
                index: old(self).pdo.index,
                sub_index: (old(self).num + 1) as u8,
                value: SdoValue::U32(spec_entry_code(sdo.index, sdo.sub, sdo.field.bitlen)),
            }),
            final(mapping).offset == old(mapping).offset + (sdo.field.bitlen + 1) / 8,
            final(mapping).num == old(mapping).num,
            final(mapping).manager == old(mapping).manager,
            final(self).num == old(self).num + 1,
            final(self).pdo == old(self).pdo,
    {
        let w = SdoWrite {
            index: self.pdo.index,
            sub_index: self.num + 1,
            value: SdoValue::U32(pdo_entry_code(sdo)),
        };
        let result = Field::new(mapping.offset, 0, sdo.field.bitlen);
        mapping.offset = mapping.offset + (sdo.field.bitlen + 1) / 8;
        self.num = self.num + 1;
        (result, w)
    }

    /// Account for `sdo` as the next entry of a PDO that is already mapped, given the entry code
    /// read back from the SubDevice, which must be the entry's: place it at the current process
    /// data offset, which then grows by the entry's bit length rounded up to bytes.
    pub fn count<T: DType>(&mut self, mapping: &mut SyncMapping, sdo: &SubItem<T>, present: u32) -> (r:
        Field<T>)
        requires
            old(self).num < old(self).pdo.num,
            present == spec_entry_code(sdo.index, sdo.sub, sdo.field.bitlen),
            old(mapping).offset + (sdo.field.bitlen + 7) / 8 <= usize::MAX,
            sdo.field.bitlen + 7 <= usize::MAX,
        ensures
            r.byte == old(mapping).offset && r.bit == 0 && r.bitlen == sdo.field.bitlen,
            final(mapping).offset == old(mapping).offset + (sdo.field.bitlen + 7) / 8,
            final(mapping).num == old(mapping).num,
            final(mapping).manager == old(mapping).manager,
            final(self).num == old(self).num + 1,
            final(self).pdo == old(self).pdo,
    {
        let result = Field::new(mapping.offset, 0, sdo.field.bitlen);
        mapping.offset = mapping.offset + (sdo.field.bitlen + 7) / 8;
        self.num = self.num + 1;
        result
    }

    /// Finish the PDO: write the number of entries.
    pub fn finish(&self) -> (r: SdoWrite)
        ensures
            r == (SdoWrite { index: self.pdo.index, sub_index: 0, value: SdoValue::U8(self.num) }),
    {
        SdoWrite { index: self.pdo.index, sub_index: 0, value: SdoValue::U8(self.num) }
    }
}

} // verus!
