//! Typed views of values at fixed places in a byte buffer.
use vstd::prelude::*;
use core::marker::PhantomData;
use crate::wire::{
    le_u16_at, le_u32_at, lemma_u16_roundtrip, lemma_u32_roundtrip, read_u16, read_u32, u16_le_bytes,
    u16_to_le, u32_le_bytes, u32_to_le,
};

verus! {

/// `s` with the bytes from `start` replaced by `v`.
pub open spec fn splice_bytes(s: Seq<u8>, start: int, v: Seq<u8>) -> Seq<u8> {
    s.subrange(0, start) + v + s.subrange(start + v.len(), s.len() as int)
}

/// Copy `v` into `data` from byte `start`.
fn write_at(data: &mut [u8], start: usize, v: &[u8])
    requires
        start + v@.len() <= old(data)@.len(),
    ensures
        final(data)@ == splice_bytes(old(data)@, start as int, v@),
{
    let n = data.len();
    let mut i: usize = 0;
    while i < v.len()
        invariant
            i <= v@.len(),
            n == old(data)@.len(),
            start + v@.len() <= old(data)@.len(),
            data@.len() == old(data)@.len(),
            forall|k: int|
                0 <= k < data@.len() ==> #[trigger] data@[k] == (if start <= k < start + i {
                    v@[k - start]
                } else {
                    old(data)@[k]
                }),
        decreases v@.len() - i,
    {
        data[start + i] = v[i];
        i = i + 1;
    }
    assert(data@ =~= splice_bytes(old(data)@, start as int, v@));
}

/// Locates a value of type `T` in a byte buffer: a start byte, a start bit in that byte and a
/// length in bits. It holds no data, only where the data is.
#[derive(Default, Copy)]
pub struct Field<T: DType> {
    /// The type of the value.
    pub dtype: PhantomData<T>,
    /// Start byte index of the object.
    pub byte: usize,
    /// Start bit index in the start byte.
    pub bit: u8,
    /// Bit length of the object.
    pub bitlen: usize,
}

/// Identifiers of the data types, to check the type of a [`DType`] at run time.
#[derive(Copy, Clone, Debug, PartialEq, Eq, Structural)]
#[allow(non_camel_case_types)]
pub enum TypeID {
    /// A type of the application's own.
    CUSTOM,
    /// Boolean.
    BOOL,
    /// Signed 8 bit integer.
    I8,
    /// Signed 16 bit integer.
    I16,
    /// Signed 32 bit integer.
    I32,
    /// Unsigned 8 bit integer.
    U8,
    /// Unsigned 16 bit integer.
    U16,
    /// Unsigned 32 bit integer.
    U32,
    /// 32 bit float.
    F32,
    /// 64 bit float.
    F64,
}

/// Data types that can be read from and written to a byte buffer, little-endian and byte
/// aligned.
pub trait DType: Sized + Copy {
    /// Size of the type in bytes.
    spec fn spec_size() -> nat;

    /// The value the little-endian bytes `s` hold.
    spec fn spec_from_le(s: Seq<u8>) -> Self;

    /// The little-endian bytes of `v`.
    spec fn spec_to_le(v: Self) -> Seq<u8>;

    /// Writing a value and reading it back gives the value.
    proof fn lemma_dtype_roundtrip(v: Self)
        ensures
            Self::spec_to_le(v).len() == Self::spec_size(),
            Self::spec_from_le(Self::spec_to_le(v)) == v,
    ;

    /// Size of the type in bytes.
    fn size() -> (r: usize)
        ensures
            r == Self::spec_size(),
            r <= 8,
    ;

    /// The identifier of this type.
    spec fn spec_id() -> TypeID;

    /// The identifier of this type.
    fn id() -> (r: TypeID)
        ensures
            r == Self::spec_id(),
    ;

    /// Read the value at `field` from `data`.
    fn from_dfield(field: &Field<Self>, data: &[u8]) -> (r: Self)
        requires
            field.bit == 0,
            field.bitlen == 8 * Self::spec_size(),
            field.byte + Self::spec_size() <= data@.len(),
        ensures
            r == Self::spec_from_le(
                data@.subrange(field.byte as int, field.byte + Self::spec_size()),
            ),
    ;

    /// Write this value at `field` into `data`.
    fn to_dfield(&self, field: &Field<Self>, data: &mut [u8])
        requires
            field.bit == 0,
            field.bitlen == 8 * Self::spec_size(),
            field.byte + Self::spec_size() <= old(data)@.len(),
        ensures
            final(data)@ == splice_bytes(old(data)@, field.byte as int, Self::spec_to_le(*self)),
    ;
}

impl<T: DType> Clone for Field<T> {
    fn clone(&self) -> (r: Self)
        ensures
            r.byte == self.byte,
            r.bit == self.bit,
            r.bitlen == self.bitlen,
    {
        Field { dtype: PhantomData, byte: self.byte, bit: self.bit, bitlen: self.bitlen }
    }
}

impl<T: DType> Field<T> {
    /// Build a field from its place.
    pub fn new(byte: usize, bit: u8, bitlen: usize) -> (r: Self)
        ensures
            r.byte == byte,
            r.bit == bit,
            r.bitlen == bitlen,
    {
        Field { dtype: PhantomData, byte, bit, bitlen }
    }

    /// Extract the value at this field from `data`.
    pub fn get(&self, data: &[u8]) -> (r: T)
        requires
            self.bit == 0,
            self.bitlen == 8 * T::spec_size(),
            self.byte + T::spec_size() <= data@.len(),
        ensures
            r == T::spec_from_le(data@.subrange(self.byte as int, self.byte + T::spec_size())),
    {
        T::from_dfield(self, data)
    }

    /// Write `value` at this field into `data`.
    pub fn set(&self, data: &mut [u8], value: T)
        requires
            self.bit == 0,
            self.bitlen == 8 * T::spec_size(),
            self.byte + T::spec_size() <= old(data)@.len(),
        ensures
            final(data)@ == splice_bytes(old(data)@, self.byte as int, T::spec_to_le(value)),
    {
        value.to_dfield(self, data)
    }
}

/// A value written at a place reads back from it, and the bytes outside the place are kept.
pub proof fn lemma_field_set_get<T: DType>(data: Seq<u8>, byte: int, value: T)
    requires
        0 <= byte,
        byte + T::spec_size() <= data.len(),
    ensures
        T::spec_from_le(
            splice_bytes(data, byte, T::spec_to_le(value)).subrange(byte, byte + T::spec_size()),
        ) == value,
        splice_bytes(data, byte, T::spec_to_le(value)).len() == data.len(),
        splice_bytes(data, byte, T::spec_to_le(value)).subrange(0, byte) == data.subrange(0, byte),
        splice_bytes(data, byte, T::spec_to_le(value)).subrange(
            byte + T::spec_size(),
            data.len() as int,
        ) == data.subrange(byte + T::spec_size(), data.len() as int),
{
    T::lemma_dtype_roundtrip(value);
    let v = T::spec_to_le(value);
    let s = splice_bytes(data, byte, v);
    assert(s.subrange(byte, byte + T::spec_size()) =~= v);
    assert(s.subrange(0, byte) =~= data.subrange(0, byte));
    assert(s.subrange(byte + T::spec_size(), data.len() as int) =~= data.subrange(
        byte + T::spec_size(),
        data.len() as int,
    ));
}

/// The value of little-endian bytes: byte `i` weighs `256` to the power `i`, so the first byte is
/// the least significant.
pub open spec fn le_value(s: Seq<u8>) -> int
    decreases s.len(),
{
    if s.len() == 0 {
        0
    } else {
        s[0] + 256 * le_value(s.subrange(1, s.len() as int))
    }
}

proof fn lemma_le_value_1(s: Seq<u8>)
    requires
        s.len() == 1,
    ensures
        le_value(s) == s[0],
{
    assert(s.subrange(1, 1) =~= Seq::<u8>::empty());
    assert(le_value(s.subrange(1, 1)) == 0);
}

proof fn lemma_le_value_2(s: Seq<u8>)
    requires
        s.len() == 2,
    ensures
        le_value(s) == s[0] + 256 * s[1],
{
    let t = s.subrange(1, 2);
    assert(t.subrange(1, 1) =~= Seq::<u8>::empty());
    assert(le_value(t) == t[0] + 256 * le_value(t.subrange(1, 1)));
}

proof fn lemma_le_value_4(s: Seq<u8>)
    requires
        s.len() == 4,
    ensures
        le_value(s) == s[0] + 256 * s[1] + 65536 * s[2] + 16777216 * s[3],
{
    let t = s.subrange(1, 4);
    let u = t.subrange(1, 3);
    let w = u.subrange(1, 2);
    assert(w.subrange(1, 1) =~= Seq::<u8>::empty());
    assert(le_value(w) == w[0] + 256 * le_value(w.subrange(1, 1)));
    assert(le_value(u) == u[0] + 256 * le_value(w));
    assert(le_value(t) == t[0] + 256 * le_value(u));
}

/// Process data values are little-endian, in two's complement for the signed types: the bytes a
/// value is written as have the value's bits, the first byte least significant, and the value
/// read from bytes is the one they hold that way.
pub proof fn lemma_dtype_little_endian(
    b8: u8,
    v16: u16,
    v32: u32,
    w8: i8,
    w16: i16,
    w32: i32,
    s1: Seq<u8>,
    s2: Seq<u8>,
    s4: Seq<u8>,
)
    requires
        s1.len() == 1,
        s2.len() == 2,
        s4.len() == 4,
    ensures
        <u8 as DType>::spec_to_le(b8).len() == 1,
        le_value(<u8 as DType>::spec_to_le(b8)) == b8,
        <u8 as DType>::spec_from_le(s1) == le_value(s1),
        <u16 as DType>::spec_to_le(v16).len() == 2,
        le_value(<u16 as DType>::spec_to_le(v16)) == v16,
        <u16 as DType>::spec_from_le(s2) == le_value(s2),
        <u32 as DType>::spec_to_le(v32).len() == 4,
        le_value(<u32 as DType>::spec_to_le(v32)) == v32,
        <u32 as DType>::spec_from_le(s4) == le_value(s4),
        <i8 as DType>::spec_to_le(w8).len() == 1,
        le_value(<i8 as DType>::spec_to_le(w8)) == (if w8 >= 0 { w8 as int } else { w8 + 256 }),
        <i8 as DType>::spec_from_le(s1) == (if le_value(s1) < 128 {
            le_value(s1)
        } else {
            le_value(s1) - 256
        }),
        <i16 as DType>::spec_to_le(w16).len() == 2,
        le_value(<i16 as DType>::spec_to_le(w16)) == (if w16 >= 0 {
            w16 as int
        } else {
            w16 + 65536
        }),
        <i16 as DType>::spec_from_le(s2) == (if le_value(s2) < 32768 {
            le_value(s2)
        } else {
            le_value(s2) - 65536
        }),
        <i32 as DType>::spec_to_le(w32).len() == 4,
        le_value(<i32 as DType>::spec_to_le(w32)) == (if w32 >= 0 {
            w32 as int
        } else {
            w32 + 4294967296
        }),
        <i32 as DType>::spec_from_le(s4) == (if le_value(s4) < 2147483648 {
            le_value(s4)
        } else {
            le_value(s4) - 4294967296
        }),
{
    lemma_le_value_1(<u8 as DType>::spec_to_le(b8));
    lemma_le_value_1(<i8 as DType>::spec_to_le(w8));
    lemma_le_value_1(s1);
    lemma_le_value_2(<u16 as DType>::spec_to_le(v16));
    lemma_le_value_2(<i16 as DType>::spec_to_le(w16));
    lemma_le_value_2(s2);
    lemma_le_value_4(<u32 as DType>::spec_to_le(v32));
    lemma_le_value_4(<i32 as DType>::spec_to_le(w32));
    lemma_le_value_4(s4);
}

impl DType for u8 {
    open spec fn spec_size() -> nat {
        1
    }

    open spec fn spec_from_le(s: Seq<u8>) -> u8 {
        s[0]
    }

    open spec fn spec_to_le(v: u8) -> Seq<u8> {
        seq![v]
    }

    proof fn lemma_dtype_roundtrip(v: u8) {
        assert(seq![v][0] == v);
    }

    fn size() -> (r: usize) {
        1
    }

    open spec fn spec_id() -> TypeID {
        TypeID::U8
    }

    fn id() -> TypeID {
        TypeID::U8
    }

    fn from_dfield(field: &Field<Self>, data: &[u8]) -> (r: Self) {
        proof {
            let s = data@.subrange(field.byte as int, field.byte + 1);
            assert forall|k: int| 0 <= k < 1 implies #[trigger] s[k] == data@[field.byte + k] by {}
        }
        data[field.byte]
    }

    fn to_dfield(&self, field: &Field<Self>, data: &mut [u8]) {
        let u: u8 = *self;
        let b = [u];
        assert(b@ =~= Self::spec_to_le(*self));
        write_at(data, field.byte, b.as_slice());
    }
}

impl DType for u16 {
    open spec fn spec_size() -> nat {
        2
    }

    open spec fn spec_from_le(s: Seq<u8>) -> u16 {
        le_u16_at(s, 0)
    }

    open spec fn spec_to_le(v: u16) -> Seq<u8> {
        u16_le_bytes(v)
    }

    proof fn lemma_dtype_roundtrip(v: u16) {
        lemma_u16_roundtrip(v, Seq::empty(), Seq::empty());
        assert(Seq::<u8>::empty() + u16_le_bytes(v) + Seq::<u8>::empty() =~= u16_le_bytes(v));
    }

    fn size() -> (r: usize) {
        2
    }

    open spec fn spec_id() -> TypeID {
        TypeID::U16
    }

    fn id() -> TypeID {
        TypeID::U16
    }

    fn from_dfield(field: &Field<Self>, data: &[u8]) -> (r: Self) {
        proof {
            let s = data@.subrange(field.byte as int, field.byte + 2);
            assert forall|k: int| 0 <= k < 2 implies #[trigger] s[k] == data@[field.byte + k] by {}
        }
        read_u16(data, field.byte)
    }

    fn to_dfield(&self, field: &Field<Self>, data: &mut [u8]) {
        let u: u16 = *self;
        let b = u16_to_le(u);
        assert(b@ =~= Self::spec_to_le(*self));
        write_at(data, field.byte, b.as_slice());
    }
}

impl DType for u32 {
    open spec fn spec_size() -> nat {
        4
    }

    open spec fn spec_from_le(s: Seq<u8>) -> u32 {
        le_u32_at(s, 0)
    }

    open spec fn spec_to_le(v: u32) -> Seq<u8> {
        u32_le_bytes(v)
    }

    proof fn lemma_dtype_roundtrip(v: u32) {
        lemma_u32_roundtrip(v, Seq::empty(), Seq::empty());
        assert(Seq::<u8>::empty() + u32_le_bytes(v) + Seq::<u8>::empty() =~= u32_le_bytes(v));
    }

    fn size() -> (r: usize) {
        4
    }

    open spec fn spec_id() -> TypeID {
        TypeID::U32
    }

    fn id() -> TypeID {
        TypeID::U32
    }

    fn from_dfield(field: &Field<Self>, data: &[u8]) -> (r: Self) {
        proof {
            let s = data@.subrange(field.byte as int, field.byte + 4);
            assert forall|k: int| 0 <= k < 4 implies #[trigger] s[k] == data@[field.byte + k] by {}
        }
        read_u32(data, field.byte)
    }

    fn to_dfield(&self, field: &Field<Self>, data: &mut [u8]) {
        let u: u32 = *self;
        let b = u32_to_le(u);
        assert(b@ =~= Self::spec_to_le(*self));
        write_at(data, field.byte, b.as_slice());
    }
}

impl DType for i8 {
    open spec fn spec_size() -> nat {
        1
    }

    open spec fn spec_from_le(s: Seq<u8>) -> i8 {
        let u = s[0];
        if u < 128 {
            u as i8
        } else {
            (u - 256) as i8
        }
    }

    open spec fn spec_to_le(v: i8) -> Seq<u8> {
        seq![(if v >= 0 { v as int } else { v + 256 }) as u8]
    }

    proof fn lemma_dtype_roundtrip(v: i8) {
        assert(seq![((if v >= 0 { v as int } else { v + 256 }) as u8)][0] == ((if v >= 0 { v as int } else { v + 256 }) as u8));
    }

    fn size() -> (r: usize) {
        1
    }

    open spec fn spec_id() -> TypeID {
        TypeID::I8
    }

    fn id() -> TypeID {
        TypeID::I8
    }

    fn from_dfield(field: &Field<Self>, data: &[u8]) -> (r: Self) {
        proof {
            let s = data@.subrange(field.byte as int, field.byte + 1);
            assert forall|k: int| 0 <= k < 1 implies #[trigger] s[k] == data@[field.byte + k] by {}
        }
        let u = data[field.byte];
        if u < 128 {
            u as i8
        } else {
            (u as i64 - 256) as i8
        }
    }

    fn to_dfield(&self, field: &Field<Self>, data: &mut [u8]) {
        let u: u8 = if *self >= 0 {
            *self as u8
        } else {
            (*self as i64 + 256) as u8
        };
        let b = [u];
        assert(b@ =~= Self::spec_to_le(*self));
        write_at(data, field.byte, b.as_slice());
    }
}

impl DType for i16 {
    open spec fn spec_size() -> nat {
        2
    }

    open spec fn spec_from_le(s: Seq<u8>) -> i16 {
        let u = le_u16_at(s, 0);
        if u < 32768 {
            u as i16
        } else {
            (u - 65536) as i16
        }
    }

    open spec fn spec_to_le(v: i16) -> Seq<u8> {
        u16_le_bytes((if v >= 0 { v as int } else { v + 65536 }) as u16)
    }

    proof fn lemma_dtype_roundtrip(v: i16) {
        lemma_u16_roundtrip(((if v >= 0 { v as int } else { v + 65536 }) as u16), Seq::empty(), Seq::empty());
        assert(Seq::<u8>::empty() + u16_le_bytes(((if v >= 0 { v as int } else { v + 65536 }) as u16)) + Seq::<u8>::empty() =~= u16_le_bytes(((if v >= 0 { v as int } else { v + 65536 }) as u16)));
    }

    fn size() -> (r: usize) {
        2
    }

    open spec fn spec_id() -> TypeID {
        TypeID::I16
    }

    fn id() -> TypeID {
        TypeID::I16
    }

    fn from_dfield(field: &Field<Self>, data: &[u8]) -> (r: Self) {
        proof {
            let s = data@.subrange(field.byte as int, field.byte + 2);
            assert forall|k: int| 0 <= k < 2 implies #[trigger] s[k] == data@[field.byte + k] by {}
        }
        let u = read_u16(data, field.byte);
        if u < 32768 {
            u as i16
        } else {
            (u as i64 - 65536) as i16
        }
    }

    fn to_dfield(&self, field: &Field<Self>, data: &mut [u8]) {
        let u: u16 = if *self >= 0 {
            *self as u16
        } else {
            (*self as i64 + 65536) as u16
        };
        let b = u16_to_le(u);
        assert(b@ =~= Self::spec_to_le(*self));
        write_at(data, field.byte, b.as_slice());
    }
}

impl DType for i32 {
    open spec fn spec_size() -> nat {
        4
    }

    open spec fn spec_from_le(s: Seq<u8>) -> i32 {
        let u = le_u32_at(s, 0);
        if u < 2147483648 {
            u as i32
        } else {
            (u - 4294967296) as i32
        }
    }

    open spec fn spec_to_le(v: i32) -> Seq<u8> {
        u32_le_bytes((if v >= 0 { v as int } else { v + 4294967296 }) as u32)
    }

    proof fn lemma_dtype_roundtrip(v: i32) {
        lemma_u32_roundtrip(((if v >= 0 { v as int } else { v + 4294967296 }) as u32), Seq::empty(), Seq::empty());
        assert(Seq::<u8>::empty() + u32_le_bytes(((if v >= 0 { v as int } else { v + 4294967296 }) as u32)) + Seq::<u8>::empty() =~= u32_le_bytes(((if v >= 0 { v as int } else { v + 4294967296 }) as u32)));
    }

    fn size() -> (r: usize) {
        4
    }

    open spec fn spec_id() -> TypeID {
        TypeID::I32
    }

    fn id() -> TypeID {
        TypeID::I32
    }

    fn from_dfield(field: &Field<Self>, data: &[u8]) -> (r: Self) {
        proof {
            let s = data@.subrange(field.byte as int, field.byte + 4);
            assert forall|k: int| 0 <= k < 4 implies #[trigger] s[k] == data@[field.byte + k] by {}
        }
        let u = read_u32(data, field.byte);
        if u < 2147483648 {
            u as i32
        } else {
            (u as i64 - 4294967296) as i32
        }
    }

    fn to_dfield(&self, field: &Field<Self>, data: &mut [u8]) {
        let u: u32 = if *self >= 0 {
            *self as u32
        } else {
            (*self as i64 + 4294967296) as u32
        };
        let b = u32_to_le(u);
        assert(b@ =~= Self::spec_to_le(*self));
        write_at(data, field.byte, b.as_slice());
    }
}

} // verus!
