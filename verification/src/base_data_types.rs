//! Primitive data types of object dictionary entries.
use vstd::prelude::*;

verus! {

/// A primitive data type, ETG1000.6 Table 64.
#[derive(Debug, Clone, Copy, PartialEq, Eq, Structural)]
pub enum PrimitiveDataType {
    /// Type code 0x00.
    Unknown,
    /// Type code 0x01.
    Bool,
    /// Type code 0x1E.
    Byte,
    /// Type code 0x1F.
    Word,
    /// Type code 0x20.
    DWord,
    /// Type code 0x30.
    Bit1,
    /// Type code 0x31.
    Bit2,
    /// Type code 0x32.
    Bit3,
    /// Type code 0x33.
    Bit4,
    /// Type code 0x34.
    Bit5,
    /// Type code 0x35.
    Bit6,
    /// Type code 0x36.
    Bit7,
    /// Type code 0x37.
    Bit8,
    /// Type code 0x38.
    Bit9,
    /// Type code 0x39.
    Bit10,
    /// Type code 0x3A.
    Bit11,
    /// Type code 0x3B.
    Bit12,
    /// Type code 0x3C.
    Bit13,
    /// Type code 0x3D.
    Bit14,
    /// Type code 0x3E.
    Bit15,
    /// Type code 0x3F.
    Bit16,
    /// Type code 0x2D.
    BitArr8,
    /// Type code 0x2E.
    BitArr16,
    /// Type code 0x2F.
    BitArr32,
    /// Type code 0x02.
    I8,
    /// Type code 0x03.
    I16,
    /// Type code 0x10.
    I24,
    /// Type code 0x04.
    I32,
    /// Type code 0x12.
    I40,
    /// Type code 0x13.
    I48,
    /// Type code 0x14.
    I56,
    /// Type code 0x15.
    I64,
    /// Type code 0x05.
    U8,
    /// Type code 0x06.
    U16,
    /// Type code 0x16.
    U24,
    /// Type code 0x07.
    U32,
    /// Type code 0x18.
    U40,
    /// Type code 0x19.
    U48,
    /// Type code 0x1A.
    U56,
    /// Type code 0x1B.
    U64,
    /// Type code 0x08.
    F32,
    /// Type code 0x11.
    F64,
}

/// The data type a raw code names, if any.
pub open spec fn primitive_data_type_from_u8(v: u8) -> Option<PrimitiveDataType> {
    if v == 0x00 {
        Some(PrimitiveDataType::Unknown)
    } else if v == 0x01 {
        Some(PrimitiveDataType::Bool)
    } else if v == 0x1E {
        Some(PrimitiveDataType::Byte)
    } else if v == 0x1F {
        Some(PrimitiveDataType::Word)
    } else if v == 0x20 {
        Some(PrimitiveDataType::DWord)
    } else if v == 0x30 {
        Some(PrimitiveDataType::Bit1)
    } else if v == 0x31 {
        Some(PrimitiveDataType::Bit2)
    } else if v == 0x32 {
        Some(PrimitiveDataType::Bit3)
    } else if v == 0x33 {
        Some(PrimitiveDataType::Bit4)
    } else if v == 0x34 {
        Some(PrimitiveDataType::Bit5)
    } else if v == 0x35 {
        Some(PrimitiveDataType::Bit6)
    } else if v == 0x36 {
        Some(PrimitiveDataType::Bit7)
    } else if v == 0x37 {
        Some(PrimitiveDataType::Bit8)
    } else if v == 0x38 {
        Some(PrimitiveDataType::Bit9)
    } else if v == 0x39 {
        Some(PrimitiveDataType::Bit10)
    } else if v == 0x3A {
        Some(PrimitiveDataType::Bit11)
    } else if v == 0x3B {
        Some(PrimitiveDataType::Bit12)
    } else if v == 0x3C {
        Some(PrimitiveDataType::Bit13)
    } else if v == 0x3D {
        Some(PrimitiveDataType::Bit14)
    } else if v == 0x3E {
        Some(PrimitiveDataType::Bit15)
    } else if v == 0x3F {
        Some(PrimitiveDataType::Bit16)
    } else if v == 0x2D {
        Some(PrimitiveDataType::BitArr8)
    } else if v == 0x2E {
        Some(PrimitiveDataType::BitArr16)
    } else if v == 0x2F {
        Some(PrimitiveDataType::BitArr32)
    } else if v == 0x02 {
        Some(PrimitiveDataType::I8)
    } else if v == 0x03 {
        Some(PrimitiveDataType::I16)
    } else if v == 0x10 {
        Some(PrimitiveDataType::I24)
    } else if v == 0x04 {
        Some(PrimitiveDataType::I32)
    } else if v == 0x12 {
        Some(PrimitiveDataType::I40)
    } else if v == 0x13 {
        Some(PrimitiveDataType::I48)
    } else if v == 0x14 {
        Some(PrimitiveDataType::I56)
    } else if v == 0x15 {
        Some(PrimitiveDataType::I64)
    } else if v == 0x05 {
        Some(PrimitiveDataType::U8)
    } else if v == 0x06 {
        Some(PrimitiveDataType::U16)
    } else if v == 0x16 {
        Some(PrimitiveDataType::U24)
    } else if v == 0x07 {
        Some(PrimitiveDataType::U32)
    } else if v == 0x18 {
        Some(PrimitiveDataType::U40)
    } else if v == 0x19 {
        Some(PrimitiveDataType::U48)
    } else if v == 0x1A {
        Some(PrimitiveDataType::U56)
    } else if v == 0x1B {
        Some(PrimitiveDataType::U64)
    } else if v == 0x08 {
        Some(PrimitiveDataType::F32)
    } else if v == 0x11 {
        Some(PrimitiveDataType::F64)
    } else {
        None
    }
}

/// The raw code of a data type.
pub open spec fn primitive_data_type_to_u8(t: PrimitiveDataType) -> u8 {
    match t {
        PrimitiveDataType::Unknown => 0x00,
        PrimitiveDataType::Bool => 0x01,
        PrimitiveDataType::Byte => 0x1E,
        PrimitiveDataType::Word => 0x1F,
        PrimitiveDataType::DWord => 0x20,
        PrimitiveDataType::Bit1 => 0x30,
        PrimitiveDataType::Bit2 => 0x31,
        PrimitiveDataType::Bit3 => 0x32,
        PrimitiveDataType::Bit4 => 0x33,
        PrimitiveDataType::Bit5 => 0x34,
        PrimitiveDataType::Bit6 => 0x35,
        PrimitiveDataType::Bit7 => 0x36,
        PrimitiveDataType::Bit8 => 0x37,
        PrimitiveDataType::Bit9 => 0x38,
        PrimitiveDataType::Bit10 => 0x39,
        PrimitiveDataType::Bit11 => 0x3A,
        PrimitiveDataType::Bit12 => 0x3B,
        PrimitiveDataType::Bit13 => 0x3C,
        PrimitiveDataType::Bit14 => 0x3D,
        PrimitiveDataType::Bit15 => 0x3E,
        PrimitiveDataType::Bit16 => 0x3F,
        PrimitiveDataType::BitArr8 => 0x2D,
        PrimitiveDataType::BitArr16 => 0x2E,
        PrimitiveDataType::BitArr32 => 0x2F,
        PrimitiveDataType::I8 => 0x02,
        PrimitiveDataType::I16 => 0x03,
        PrimitiveDataType::I24 => 0x10,
        PrimitiveDataType::I32 => 0x04,
        PrimitiveDataType::I40 => 0x12,
        PrimitiveDataType::I48 => 0x13,
        PrimitiveDataType::I56 => 0x14,
        PrimitiveDataType::I64 => 0x15,
        PrimitiveDataType::U8 => 0x05,
        PrimitiveDataType::U16 => 0x06,
        PrimitiveDataType::U24 => 0x16,
        PrimitiveDataType::U32 => 0x07,
        PrimitiveDataType::U40 => 0x18,
        PrimitiveDataType::U48 => 0x19,
        PrimitiveDataType::U56 => 0x1A,
        PrimitiveDataType::U64 => 0x1B,
        PrimitiveDataType::F32 => 0x08,
        PrimitiveDataType::F64 => 0x11,
    }
}

impl PrimitiveDataType {
    /// Decode a raw type code.
    pub fn from_u8(v: u8) -> (r: Option<Self>)
        ensures
            r == primitive_data_type_from_u8(v),
    {
        if v == 0x00 {
            Some(PrimitiveDataType::Unknown)
        } else if v == 0x01 {
            Some(PrimitiveDataType::Bool)
        } else if v == 0x1E {
            Some(PrimitiveDataType::Byte)
        } else if v == 0x1F {
            Some(PrimitiveDataType::Word)
        } else if v == 0x20 {
            Some(PrimitiveDataType::DWord)
        } else if v == 0x30 {
            Some(PrimitiveDataType::Bit1)
        } else if v == 0x31 {
            Some(PrimitiveDataType::Bit2)
        } else if v == 0x32 {
            Some(PrimitiveDataType::Bit3)
        } else if v == 0x33 {
            Some(PrimitiveDataType::Bit4)
        } else if v == 0x34 {
            Some(PrimitiveDataType::Bit5)
        } else if v == 0x35 {
            Some(PrimitiveDataType::Bit6)
        } else if v == 0x36 {
            Some(PrimitiveDataType::Bit7)
        } else if v == 0x37 {
            Some(PrimitiveDataType::Bit8)
        } else if v == 0x38 {
            Some(PrimitiveDataType::Bit9)
        } else if v == 0x39 {
            Some(PrimitiveDataType::Bit10)
        } else if v == 0x3A {
            Some(PrimitiveDataType::Bit11)
        } else if v == 0x3B {
            Some(PrimitiveDataType::Bit12)
        } else if v == 0x3C {
            Some(PrimitiveDataType::Bit13)
        } else if v == 0x3D {
            Some(PrimitiveDataType::Bit14)
        } else if v == 0x3E {
            Some(PrimitiveDataType::Bit15)
        } else if v == 0x3F {
            Some(PrimitiveDataType::Bit16)
        } else if v == 0x2D {
            Some(PrimitiveDataType::BitArr8)
        } else if v == 0x2E {
            Some(PrimitiveDataType::BitArr16)
        } else if v == 0x2F {
            Some(PrimitiveDataType::BitArr32)
        } else if v == 0x02 {
            Some(PrimitiveDataType::I8)
        } else if v == 0x03 {
            Some(PrimitiveDataType::I16)
        } else if v == 0x10 {
            Some(PrimitiveDataType::I24)
        } else if v == 0x04 {
            Some(PrimitiveDataType::I32)
        } else if v == 0x12 {
            Some(PrimitiveDataType::I40)
        } else if v == 0x13 {
            Some(PrimitiveDataType::I48)
        } else if v == 0x14 {
            Some(PrimitiveDataType::I56)
        } else if v == 0x15 {
            Some(PrimitiveDataType::I64)
        } else if v == 0x05 {
            Some(PrimitiveDataType::U8)
        } else if v == 0x06 {
            Some(PrimitiveDataType::U16)
        } else if v == 0x16 {
            Some(PrimitiveDataType::U24)
        } else if v == 0x07 {
            Some(PrimitiveDataType::U32)
        } else if v == 0x18 {
            Some(PrimitiveDataType::U40)
        } else if v == 0x19 {
            Some(PrimitiveDataType::U48)
        } else if v == 0x1A {
            Some(PrimitiveDataType::U56)
        } else if v == 0x1B {
            Some(PrimitiveDataType::U64)
        } else if v == 0x08 {
            Some(PrimitiveDataType::F32)
        } else if v == 0x11 {
            Some(PrimitiveDataType::F64)
        } else {
            None
        }
    }

    /// The raw code of this type.
    pub fn to_u8(&self) -> (r: u8)
        ensures
            r == primitive_data_type_to_u8(*self),
    {
        match self {
            PrimitiveDataType::Unknown => 0x00,
            PrimitiveDataType::Bool => 0x01,
            PrimitiveDataType::Byte => 0x1E,
            PrimitiveDataType::Word => 0x1F,
            PrimitiveDataType::DWord => 0x20,
            PrimitiveDataType::Bit1 => 0x30,
            PrimitiveDataType::Bit2 => 0x31,
            PrimitiveDataType::Bit3 => 0x32,
            PrimitiveDataType::Bit4 => 0x33,
            PrimitiveDataType::Bit5 => 0x34,
            PrimitiveDataType::Bit6 => 0x35,
            PrimitiveDataType::Bit7 => 0x36,
            PrimitiveDataType::Bit8 => 0x37,
            PrimitiveDataType::Bit9 => 0x38,
            PrimitiveDataType::Bit10 => 0x39,
            PrimitiveDataType::Bit11 => 0x3A,
            PrimitiveDataType::Bit12 => 0x3B,
            PrimitiveDataType::Bit13 => 0x3C,
            PrimitiveDataType::Bit14 => 0x3D,
            PrimitiveDataType::Bit15 => 0x3E,
            PrimitiveDataType::Bit16 => 0x3F,
            PrimitiveDataType::BitArr8 => 0x2D,
            PrimitiveDataType::BitArr16 => 0x2E,
            PrimitiveDataType::BitArr32 => 0x2F,
            PrimitiveDataType::I8 => 0x02,
            PrimitiveDataType::I16 => 0x03,
            PrimitiveDataType::I24 => 0x10,
            PrimitiveDataType::I32 => 0x04,
            PrimitiveDataType::I40 => 0x12,
            PrimitiveDataType::I48 => 0x13,
            PrimitiveDataType::I56 => 0x14,
            PrimitiveDataType::I64 => 0x15,
            PrimitiveDataType::U8 => 0x05,
            PrimitiveDataType::U16 => 0x06,
            PrimitiveDataType::U24 => 0x16,
            PrimitiveDataType::U32 => 0x07,
            PrimitiveDataType::U40 => 0x18,
            PrimitiveDataType::U48 => 0x19,
            PrimitiveDataType::U56 => 0x1A,
            PrimitiveDataType::U64 => 0x1B,
            PrimitiveDataType::F32 => 0x08,
            PrimitiveDataType::F64 => 0x11,
        }
    }
}

/// Every data type survives a trip through its raw code.
pub proof fn lemma_primitive_data_type_roundtrip(t: PrimitiveDataType)
    ensures
        primitive_data_type_from_u8(primitive_data_type_to_u8(t)) == Some(t),
{
}

} // verus!
