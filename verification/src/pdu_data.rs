//! Values that travel in PDUs: how each is read from and written to its wire bytes.
use vstd::prelude::*;
use crate::wire::{
    bytes_to_vec, le_u16_at, le_u32_at, le_u64_at, lemma_u16_roundtrip, lemma_u32_roundtrip,
    lemma_u64_roundtrip, read_u16, read_u32, read_u64, u16_le_bytes, u16_to_le, u32_le_bytes,
    u32_to_le, u64_le_bytes, u64_to_le,
};
use crate::LEN_MASK;

verus! {

/// The standard library's error for a slice whose length is not that of the array asked for.
#[verifier::external_type_specification]
#[verifier::external_body]
pub struct ExTryFromSliceError(core::array::TryFromSliceError);

/// `<[u8; N]>::try_from(&[u8])`: the array holding the slice's bytes, which succeeds exactly when
/// the slice holds `N` bytes.
#[verifier::external_body]
fn slice_to_array<const N: usize>(slice: &[u8]) -> (r: Result<[u8; N], core::array::TryFromSliceError>)
    ensures
        r is Ok <==> slice@.len() == N,
        r matches Ok(a) ==> a@ == slice@,
{
    <[u8; N]>::try_from(slice)
}

/// A value that can be read from the bytes of a PDU.
pub trait PduRead: Sized {
    /// Why reading failed.
    type Error;

    /// The length of the value on the wire, in bytes, before masking.
    spec fn spec_raw_len() -> u16;

    /// The value the bytes `s` hold, if they hold one.
    spec fn spec_read(s: Seq<u8>) -> Option<Self>;

    /// The length of the value on the wire, in bytes: the raw length masked to the 11 bits of a
    /// PDU length field.
    fn len() -> (r: u16)
        ensures
            r == Self::spec_raw_len() & LEN_MASK,
    ;

    /// Read a value from `slice`.
    fn try_from_slice(slice: &[u8]) -> (r: Result<Self, Self::Error>)
        ensures
            r is Ok <==> Self::spec_read(slice@) is Some,
            r matches Ok(v) ==> Self::spec_read(slice@) == Some(v),
    ;
}

/// A value that can also be written into the bytes of a PDU.
pub trait PduData: PduRead {
    /// The wire bytes of this value.
    spec fn spec_bytes(&self) -> Seq<u8>;

    /// The wire bytes of this value.
    fn as_slice(&self) -> (r: Vec<u8>)
        ensures
            r@ == self.spec_bytes(),
    ;

    /// Reading the bytes a value is written as gives the value back.
    proof fn lemma_read_written(v: Self)
        ensures
            Self::spec_read(v.spec_bytes()) == Some(v),
    ;
}

/// Bytes of length `n`, read as `v`.
pub open spec fn read_exact<T>(s: Seq<u8>, n: nat, v: T) -> Option<T> {
    if s.len() == n {
        Some(v)
    } else {
        None
    }
}

impl PduRead for u8 {
    type Error = core::array::TryFromSliceError;

    open spec fn spec_raw_len() -> u16 {
        1
    }

    open spec fn spec_read(s: Seq<u8>) -> Option<u8> {
        read_exact(s, 1, s[0])
    }

    fn len() -> (r: u16) {
        assert(1u16 & 0x7ff == 1) by (bit_vector);
        1
    }

    fn try_from_slice(slice: &[u8]) -> (r: Result<Self, Self::Error>) {
        match slice_to_array::<1>(slice) {
            Ok(a) => Ok(a[0]),
            Err(e) => Err(e),
        }
    }
}

impl PduData for u8 {
    open spec fn spec_bytes(&self) -> Seq<u8> {
        seq![*self]
    }

    fn as_slice(&self) -> (r: Vec<u8>) {
        let v = vec![*self];
        assert(v@ =~= seq![*self]);
        v
    }

    proof fn lemma_read_written(v: Self) {
    }
}

impl PduRead for u16 {
    type Error = core::array::TryFromSliceError;

    open spec fn spec_raw_len() -> u16 {
        2
    }

    open spec fn spec_read(s: Seq<u8>) -> Option<u16> {
        read_exact(s, 2, le_u16_at(s, 0))
    }

    fn len() -> (r: u16) {
        assert(2u16 & 0x7ff == 2) by (bit_vector);
        2
    }

    fn try_from_slice(slice: &[u8]) -> (r: Result<Self, Self::Error>) {
        match slice_to_array::<2>(slice) {
            Ok(a) => Ok(read_u16(a.as_slice(), 0)),
            Err(e) => Err(e),
        }
    }
}

impl PduData for u16 {
    open spec fn spec_bytes(&self) -> Seq<u8> {
        u16_le_bytes(*self)
    }

    fn as_slice(&self) -> (r: Vec<u8>) {
        let a = u16_to_le(*self);
        bytes_to_vec(a.as_slice())
    }

    proof fn lemma_read_written(v: Self) {
        lemma_u16_roundtrip(v, Seq::empty(), Seq::empty());
        assert(Seq::<u8>::empty() + u16_le_bytes(v) + Seq::<u8>::empty() =~= u16_le_bytes(v));
    }
}

impl PduRead for u32 {
    type Error = core::array::TryFromSliceError;

    open spec fn spec_raw_len() -> u16 {
        4
    }

    open spec fn spec_read(s: Seq<u8>) -> Option<u32> {
        read_exact(s, 4, le_u32_at(s, 0))
    }

    fn len() -> (r: u16) {
        assert(4u16 & 0x7ff == 4) by (bit_vector);
        4
    }

    fn try_from_slice(slice: &[u8]) -> (r: Result<Self, Self::Error>) {
        match slice_to_array::<4>(slice) {
            Ok(a) => Ok(read_u32(a.as_slice(), 0)),
            Err(e) => Err(e),
        }
    }
}

impl PduData for u32 {
    open spec fn spec_bytes(&self) -> Seq<u8> {
        u32_le_bytes(*self)
    }

    fn as_slice(&self) -> (r: Vec<u8>) {
        let a = u32_to_le(*self);
        bytes_to_vec(a.as_slice())
    }

    proof fn lemma_read_written(v: Self) {
        lemma_u32_roundtrip(v, Seq::empty(), Seq::empty());
        assert(Seq::<u8>::empty() + u32_le_bytes(v) + Seq::<u8>::empty() =~= u32_le_bytes(v));
    }
}

impl PduRead for u64 {
    type Error = core::array::TryFromSliceError;

    open spec fn spec_raw_len() -> u16 {
        8
    }

    open spec fn spec_read(s: Seq<u8>) -> Option<u64> {
        read_exact(s, 8, le_u64_at(s, 0))
    }

    fn len() -> (r: u16) {
        assert(8u16 & 0x7ff == 8) by (bit_vector);
        8
    }

    fn try_from_slice(slice: &[u8]) -> (r: Result<Self, Self::Error>) {
        match slice_to_array::<8>(slice) {
            Ok(a) => Ok(read_u64(a.as_slice(), 0)),
            Err(e) => Err(e),
        }
    }
}

impl PduData for u64 {
    open spec fn spec_bytes(&self) -> Seq<u8> {
        u64_le_bytes(*self)
    }

    fn as_slice(&self) -> (r: Vec<u8>) {
        let a = u64_to_le(*self);
        bytes_to_vec(a.as_slice())
    }

    proof fn lemma_read_written(v: Self) {
        lemma_u64_roundtrip(v, Seq::empty(), Seq::empty());
        assert(Seq::<u8>::empty() + u64_le_bytes(v) + Seq::<u8>::empty() =~= u64_le_bytes(v));
    }
}

impl PduRead for i8 {
    type Error = core::array::TryFromSliceError;

    open spec fn spec_raw_len() -> u16 {
        1
    }

    open spec fn spec_read(s: Seq<u8>) -> Option<i8> {
        read_exact(s, 1, (if s[0] < 128 { s[0] as int } else { s[0] - 256 }) as i8)
    }

    fn len() -> (r: u16) {
        assert(1u16 & 0x7ff == 1) by (bit_vector);
        1
    }

    fn try_from_slice(slice: &[u8]) -> (r: Result<Self, Self::Error>) {
        match slice_to_array::<1>(slice) {
            Ok(a) => {
                let u = a[0];
                Ok(
                    if u < 128 {
                        u as i8
                    } else {
                        (u as i16 - 256) as i8
                    },
                )
            },
            Err(e) => Err(e),
        }
    }
}

impl PduData for i8 {
    open spec fn spec_bytes(&self) -> Seq<u8> {
        seq![(if *self >= 0 { *self as int } else { *self + 256 }) as u8]
    }

    fn as_slice(&self) -> (r: Vec<u8>) {
        let u: u8 = if *self >= 0 {
            *self as u8
        } else {
            (*self as i16 + 256) as u8
        };
        let v = vec![u];
        assert(v@ =~= self.spec_bytes());
        v
    }

    proof fn lemma_read_written(v: Self) {
        let b = v.spec_bytes();
        assert(b[0] == (if v >= 0 { v as int } else { v + 256 }) as u8);
    }
}

impl PduRead for i16 {
    type Error = core::array::TryFromSliceError;

    open spec fn spec_raw_len() -> u16 {
        2
    }

    open spec fn spec_read(s: Seq<u8>) -> Option<i16> {
        let u = le_u16_at(s, 0);
        read_exact(s, 2, (if u < 0x8000 { u as int } else { u - 0x1_0000 }) as i16)
    }

    fn len() -> (r: u16) {
        assert(2u16 & 0x7ff == 2) by (bit_vector);
        2
    }

    fn try_from_slice(slice: &[u8]) -> (r: Result<Self, Self::Error>) {
        match slice_to_array::<2>(slice) {
            Ok(a) => {
                let u = read_u16(a.as_slice(), 0);
                Ok(
                    if u < 0x8000 {
                        u as i16
                    } else {
                        (u as i32 - 0x1_0000) as i16
                    },
                )
            },
            Err(e) => Err(e),
        }
    }
}

impl PduData for i16 {
    open spec fn spec_bytes(&self) -> Seq<u8> {
        u16_le_bytes((if *self >= 0 { *self as int } else { *self + 0x1_0000 }) as u16)
    }

    fn as_slice(&self) -> (r: Vec<u8>) {
        let u: u16 = if *self >= 0 {
            *self as u16
        } else {
            (*self as i32 + 0x1_0000) as u16
        };
        let a = u16_to_le(u);
        bytes_to_vec(a.as_slice())
    }

    proof fn lemma_read_written(v: Self) {
        let u = (if v >= 0 { v as int } else { v + 0x1_0000 }) as u16;
        lemma_u16_roundtrip(u, Seq::empty(), Seq::empty());
        assert(Seq::<u8>::empty() + u16_le_bytes(u) + Seq::<u8>::empty() =~= u16_le_bytes(u));
    }
}

impl PduRead for i32 {
    type Error = core::array::TryFromSliceError;

    open spec fn spec_raw_len() -> u16 {
        4
    }

    open spec fn spec_read(s: Seq<u8>) -> Option<i32> {
        let u = le_u32_at(s, 0);
        read_exact(s, 4, (if u < 0x8000_0000 { u as int } else { u - 0x1_0000_0000 }) as i32)
    }

    fn len() -> (r: u16) {
        assert(4u16 & 0x7ff == 4) by (bit_vector);
        4
    }

    fn try_from_slice(slice: &[u8]) -> (r: Result<Self, Self::Error>) {
        match slice_to_array::<4>(slice) {
            Ok(a) => {
                let u = read_u32(a.as_slice(), 0);
                Ok(
                    if u < 0x8000_0000 {
                        u as i32
                    } else {
                        (u as i64 - 0x1_0000_0000) as i32
                    },
                )
            },
            Err(e) => Err(e),
        }
    }
}

impl PduData for i32 {
    open spec fn spec_bytes(&self) -> Seq<u8> {
        u32_le_bytes((if *self >= 0 { *self as int } else { *self + 0x1_0000_0000 }) as u32)
    }

    fn as_slice(&self) -> (r: Vec<u8>) {
        let u: u32 = if *self >= 0 {
            *self as u32
        } else {
            (*self as i64 + 0x1_0000_0000) as u32
        };
        let a = u32_to_le(u);
        bytes_to_vec(a.as_slice())
    }

    proof fn lemma_read_written(v: Self) {
        let u = (if v >= 0 { v as int } else { v + 0x1_0000_0000 }) as u32;
        lemma_u32_roundtrip(u, Seq::empty(), Seq::empty());
        assert(Seq::<u8>::empty() + u32_le_bytes(u) + Seq::<u8>::empty() =~= u32_le_bytes(u));
    }
}

impl PduRead for i64 {
    type Error = core::array::TryFromSliceError;

    open spec fn spec_raw_len() -> u16 {
        8
    }

    open spec fn spec_read(s: Seq<u8>) -> Option<i64> {
        let u = le_u64_at(s, 0);
        read_exact(
            s,
            8,
            (if u < 0x8000_0000_0000_0000 {
                u as int
            } else {
                u - 0x1_0000_0000_0000_0000
            }) as i64,
        )
    }

    fn len() -> (r: u16) {
        assert(8u16 & 0x7ff == 8) by (bit_vector);
        8
    }

    fn try_from_slice(slice: &[u8]) -> (r: Result<Self, Self::Error>) {
        match slice_to_array::<8>(slice) {
            Ok(a) => {
                let u = read_u64(a.as_slice(), 0);
                Ok(
                    if u < 0x8000_0000_0000_0000 {
                        u as i64
                    } else {
                        (u as i128 - 0x1_0000_0000_0000_0000) as i64
                    },
                )
            },
            Err(e) => Err(e),
        }
    }
}

impl PduData for i64 {
    open spec fn spec_bytes(&self) -> Seq<u8> {
        u64_le_bytes(
            (if *self >= 0 {
                *self as int
            } else {
                *self + 0x1_0000_0000_0000_0000
            }) as u64,
        )
    }

    fn as_slice(&self) -> (r: Vec<u8>) {
        let u: u64 = if *self >= 0 {
            *self as u64
        } else {
            (*self as i128 + 0x1_0000_0000_0000_0000) as u64
        };
        let a = u64_to_le(u);
        bytes_to_vec(a.as_slice())
    }

    proof fn lemma_read_written(v: Self) {
        let u = (if v >= 0 { v as int } else { v + 0x1_0000_0000_0000_0000 }) as u64;
        lemma_u64_roundtrip(u, Seq::empty(), Seq::empty());
        assert(Seq::<u8>::empty() + u64_le_bytes(u) + Seq::<u8>::empty() =~= u64_le_bytes(u));
    }
}

/// A boolean is one byte: any nonzero byte reads as true, and true is written as `0xff`.
impl PduRead for bool {
    type Error = ();

    open spec fn spec_raw_len() -> u16 {
        1
    }

    open spec fn spec_read(s: Seq<u8>) -> Option<bool> {
        if s.len() >= 1 {
            Some(s[0] > 0)
        } else {
            None
        }
    }

    fn len() -> (r: u16) {
        assert(1u16 & 0x7ff == 1) by (bit_vector);
        1
    }

    fn try_from_slice(slice: &[u8]) -> (r: Result<Self, Self::Error>) {
        if slice.len() >= 1 {
            Ok(slice[0] > 0)
        } else {
            Err(())
        }
    }
}

impl PduData for bool {
    open spec fn spec_bytes(&self) -> Seq<u8> {
        if *self {
            seq![0xffu8]
        } else {
            seq![0x00u8]
        }
    }

    fn as_slice(&self) -> (r: Vec<u8>) {
        let v = if *self {
            vec![0xffu8]
        } else {
            vec![0x00u8]
        };
        assert(v@ =~= self.spec_bytes());
        v
    }

    proof fn lemma_read_written(v: Self) {
    }
}

/// The unit value takes no bytes and reads from any slice.
impl PduRead for () {
    type Error = core::array::TryFromSliceError;

    open spec fn spec_raw_len() -> u16 {
        0
    }

    open spec fn spec_read(s: Seq<u8>) -> Option<()> {
        Some(())
    }

    fn len() -> (r: u16) {
        assert(0u16 & 0x7ff == 0) by (bit_vector);
        0
    }

    fn try_from_slice(slice: &[u8]) -> (r: Result<Self, Self::Error>) {
        Ok(())
    }
}

impl PduData for () {
    open spec fn spec_bytes(&self) -> Seq<u8> {
        Seq::empty()
    }

    fn as_slice(&self) -> (r: Vec<u8>) {
        Vec::new()
    }

    proof fn lemma_read_written(v: Self) {
    }
}

/// A byte array is its own wire form; its length is `N`, truncated to 16 bits.
impl<const N: usize> PduRead for [u8; N] {
    type Error = core::array::TryFromSliceError;

    open spec fn spec_raw_len() -> u16 {
        N as u16
    }

    open spec fn spec_read(s: Seq<u8>) -> Option<[u8; N]> {
        if s.len() == N {
            Some(choose|a: [u8; N]| a@ == s)
        } else {
            None
        }
    }

    fn len() -> (r: u16) {
        #[verifier::truncate]
        (N as u16) & LEN_MASK
    }

    fn try_from_slice(slice: &[u8]) -> (r: Result<Self, Self::Error>) {
        let r = slice_to_array::<N>(slice);
        proof {
            broadcast use vstd::array::group_array_axioms;

            if let Ok(a) = r {
                let c = choose|c: [u8; N]| c@ == slice@;
                assert(c@ == slice@);
                assert(c =~= a);
            }
        }
        r
    }
}

impl<const N: usize> PduData for [u8; N] {
    open spec fn spec_bytes(&self) -> Seq<u8> {
        self@
    }

    fn as_slice(&self) -> (r: Vec<u8>) {
        bytes_to_vec(self)
    }

    proof fn lemma_read_written(v: Self) {
        broadcast use vstd::array::group_array_axioms;

        let c = choose|c: [u8; N]| c@ == v@;
        assert(c@ == v@);
        assert(c =~= v);
    }
}

} // verus!
