use core::marker::PhantomData;
use vstd::bytes::{spec_u32_from_le_bytes, spec_u64_from_le_bytes, u32_from_le_bytes, u64_from_le_bytes};
use vstd::prelude::*;

use crate::reader::{MemoryReader, ReadError};

verus! {

/// A type whose values take a fixed, statically known number of bytes in the
/// target process.
pub trait ProperlySized {
    /// The number of bytes a value takes.
    spec fn spec_size() -> nat;

    /// Returns `spec_size()`.
    fn byte_size() -> (r: u64)
        ensures
            r as nat == Self::spec_size(),
    ;
}

/// A fixed-size value that can be checked and decoded from the bytes that
/// hold it in the target process.
pub trait Decode: ProperlySized + Sized {
    /// The value the bytes `b` hold, or `None` where they break the type's
    /// bit-pattern rules.
    spec fn spec_decode(b: Seq<u8>) -> Option<Self>;

    /// Checks and decodes `b`.
    fn decode(b: &[u8]) -> (r: Option<Self>)
        requires
            b@.len() == Self::spec_size(),
        ensures
            r == Self::spec_decode(b@),
    ;
}

impl ProperlySized for u32 {
    open spec fn spec_size() -> nat {
        4
    }

    fn byte_size() -> (r: u64) {
        4
    }
}

impl Decode for u32 {
    open spec fn spec_decode(b: Seq<u8>) -> Option<u32> {
        Some(spec_u32_from_le_bytes(b))
    }

    fn decode(b: &[u8]) -> (r: Option<u32>) {
        Some(u32_from_le_bytes(b))
    }
}

impl ProperlySized for u64 {
    open spec fn spec_size() -> nat {
        8
    }

    fn byte_size() -> (r: u64) {
        8
    }
}

impl Decode for u64 {
    open spec fn spec_decode(b: Seq<u8>) -> Option<u64> {
        Some(spec_u64_from_le_bytes(b))
    }

    fn decode(b: &[u8]) -> (r: Option<u64>) {
        Some(u64_from_le_bytes(b))
    }
}

impl ProperlySized for i64 {
    open spec fn spec_size() -> nat {
        8
    }

    fn byte_size() -> (r: u64) {
        8
    }
}

impl Decode for i64 {
    open spec fn spec_decode(b: Seq<u8>) -> Option<i64> {
        Some(spec_u64_from_le_bytes(b) as i64)
    }

    fn decode(b: &[u8]) -> (r: Option<i64>) {
        Some(u64_from_le_bytes(b) as i64)
    }
}

/// What a checked read of a `T` at `addr` may have produced: the decoded
/// bytes that the reader may return there, `Unreadable` where the reader may
/// fail, `Invalid` where it may return bytes that are no `T`.
pub open spec fn read_outcome<T: Decode, R: MemoryReader>(
    reader: &R,
    addr: u64,
    r: Result<T, ReadError>,
) -> bool {
    match r {
        Ok(v) => exists|b: Seq<u8>|
            #![trigger reader.may_read(addr, T::spec_size(), Some(b))]
            b.len() == T::spec_size() && reader.may_read(addr, T::spec_size(), Some(b))
                && T::spec_decode(b) == Some(v),
        Err(ReadError::Unreadable) => reader.may_read(addr, T::spec_size(), None),
        Err(ReadError::Invalid) => exists|b: Seq<u8>|
            #![trigger reader.may_read(addr, T::spec_size(), Some(b))]
            b.len() == T::spec_size() && reader.may_read(addr, T::spec_size(), Some(b))
                && T::spec_decode(b) is None,
        Err(ReadError::Capacity) => false,
    }
}

/// Reads the bytes of a `T` at `addr` and checks and decodes them: the one
/// place where raw bytes become typed values.
pub fn read_value<T: Decode, R: MemoryReader>(reader: &R, addr: u64) -> (r: Result<T, ReadError>)
    requires
        T::spec_size() <= usize::MAX,
    ensures
        read_outcome(reader, addr, r),
{
    let size = T::byte_size() as usize;
    match reader.read_bytes(addr, size) {
        None => Err(ReadError::Unreadable),
        // A reader that Verus has not checked may return too few bytes.
        Some(bytes) if bytes.len() != size => Err(ReadError::Unreadable),
        Some(bytes) => match T::decode(bytes.as_slice()) {
            Some(v) => Ok(v),
            None => Err(ReadError::Invalid),
        },
    }
}

/// The address of a value of engine type `T` in the target process.
///
/// The type is a promise of the caller; nothing is read until the reference
/// is dereferenced, and then afresh on every read.
#[derive(Debug)]
pub struct Ptr<T> {
    addr: u64,
    marker: PhantomData<T>,
}

impl<T> Clone for Ptr<T> {
    fn clone(&self) -> (r: Self)
        ensures
            r@ == self@,
    {
        Ptr { addr: self.addr, marker: PhantomData }
    }
}

impl<T> Copy for Ptr<T> {
}

impl<T> View for Ptr<T> {
    type V = u64;

    closed spec fn view(&self) -> u64 {
        self.addr
    }
}

/// The reference to `addr`.
pub closed spec fn ptr_at<T>(addr: u64) -> Ptr<T> {
    Ptr { addr, marker: PhantomData }
}

/// The reference to an address has that address.
pub broadcast proof fn lemma_ptr_at<T>(addr: u64)
    ensures
        #[trigger] ptr_at::<T>(addr)@ == addr,
{
}

impl<T> Ptr<T> {
    /// A reference to the value at `addr`; nothing is checked.
    pub fn new(addr: u64) -> (r: Self)
        ensures
            r == ptr_at::<T>(addr),
    {
        Ptr { addr, marker: PhantomData }
    }

    /// Reads and checks the value the reference points to.
    pub fn deref<R: MemoryReader>(self, reader: &R) -> (r: Result<T, ReadError>) where
        T: Decode,

        requires
            T::spec_size() <= usize::MAX,
        ensures
            read_outcome(reader, self@, r),
    {
        read_value(reader, self.addr)
    }

    /// The same address as a reference to a `U`.
    pub open spec fn spec_cast<U>(self) -> Ptr<U> {
        ptr_at(self@)
    }

    /// The same address as a reference to a `U`: no memory is read.
    #[verifier::when_used_as_spec(spec_cast)]
    pub fn cast<U>(self) -> (r: Ptr<U>)
        ensures
            r == self.spec_cast::<U>(),
    {
        Ptr { addr: self.addr, marker: PhantomData }
    }

    /// The address.
    pub fn addr(self) -> (r: u64)
        ensures
            r == self@,
    {
        self.addr
    }
}

impl<T> ProperlySized for Ptr<T> {
    open spec fn spec_size() -> nat {
        8
    }

    fn byte_size() -> (r: u64) {
        8
    }
}

impl<T> Decode for Ptr<T> {
    open spec fn spec_decode(b: Seq<u8>) -> Option<Ptr<T>> {
        Some(ptr_at(spec_u64_from_le_bytes(b)))
    }

    fn decode(b: &[u8]) -> (r: Option<Ptr<T>>) {
        Some(Ptr::new(u64_from_le_bytes(b)))
    }
}

} // verus!
