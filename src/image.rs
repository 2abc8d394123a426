use vstd::prelude::*;

use crate::reader::{MemoryReader, ReadError};
use crate::remote::{read_outcome, Decode};

verus! {

/// A run of bytes of a process image, starting at `base`.
pub struct Region {
    pub base: u64,
    pub bytes: Vec<u8>,
}

/// The bytes of `len` at `addr` in `regions`, where one region holds them
/// all; of several such regions the last one wins.
pub open spec fn lookup_in(regions: Seq<(u64, Seq<u8>)>, addr: u64, len: nat) -> Option<Seq<u8>>
    decreases regions.len(),
{
    if regions.len() == 0 {
        None
    } else {
        let (base, bytes) = regions.last();
        if base <= addr && addr + len <= base + bytes.len() {
            Some(bytes.subrange(addr - base, addr - base + len))
        } else {
            lookup_in(regions.drop_last(), addr, len)
        }
    }
}

/// A fixed snapshot of a process's memory, as a list of mapped regions.
///
/// Reading it always gives the same answer: the bytes where one region
/// holds the whole range, a failure elsewhere.
pub struct MemoryImage {
    regions: Vec<Region>,
}

impl View for MemoryImage {
    type V = Seq<(u64, Seq<u8>)>;

    closed spec fn view(&self) -> Seq<(u64, Seq<u8>)> {
        self.regions@.map_values(|r: Region| (r.base, r.bytes@))
    }
}

impl MemoryImage {
    /// An image with nothing mapped.
    pub fn new() -> (r: Self)
        ensures
            r@ == Seq::<(u64, Seq<u8>)>::empty(),
    {
        let r = MemoryImage { regions: Vec::new() };
        assert(r@ =~= Seq::<(u64, Seq<u8>)>::empty());
        r
    }

    /// Maps `bytes` at `base`, over whatever was mapped there before.
    pub fn map_bytes(&mut self, base: u64, bytes: Vec<u8>)
        ensures
            final(self)@ == old(self)@.push((base, bytes@)),
    {
        self.regions.push(Region { base, bytes });
        assert(self@ =~= old(self)@.push((base, bytes@)));
    }

    /// The bytes of `len` at `addr`, or `None` where no region holds them.
    pub open spec fn lookup(&self, addr: u64, len: nat) -> Option<Seq<u8>> {
        lookup_in(self@, addr, len)
    }
}

impl MemoryReader for MemoryImage {
    open spec fn may_read(&self, addr: u64, len: nat, out: Option<Seq<u8>>) -> bool {
        out == self.lookup(addr, len)
    }

    fn read_bytes(&self, addr: u64, len: usize) -> (r: Option<Vec<u8>>) {
        let mut i: usize = self.regions.len();
        assert(self@.take(i as int) =~= self@);
        while i > 0
            invariant
                i <= self.regions@.len(),
                self.lookup(addr, len as nat) == lookup_in(self@.take(i as int), addr, len as nat),
            decreases i,
        {
            i = i - 1;
            let region = &self.regions[i];
            assert(self@.take(i + 1).drop_last() =~= self@.take(i as int));
            assert(self@.take(i + 1).last() == (region.base, region.bytes@));
            let base = region.base;
            let n = region.bytes.len();
            if base <= addr && addr - base <= n as u64 && len as u64 <= n as u64 - (addr - base) {
                let start = (addr - base) as usize;
                let mut out: Vec<u8> = Vec::new();
                let mut j: usize = 0;
                while j < len
                    invariant
                        j <= len,
                        n == region.bytes@.len(),
                        start + len <= n,
                        out@ =~= region.bytes@.subrange(start as int, start + j),
                    decreases len - j,
                {
                    out.push(region.bytes[start + j]);
                    j = j + 1;
                }
                return Some(out);
            }
        }
        assert(self@.take(0) =~= Seq::<(u64, Seq<u8>)>::empty());
        None
    }
}

/// The one outcome of a checked read of a `T` at `addr` in `image`.
pub open spec fn image_value<T: Decode>(image: &MemoryImage, addr: u64) -> Result<T, ReadError> {
    match image.lookup(addr, T::spec_size()) {
        None => Err(ReadError::Unreadable),
        Some(b) => match T::spec_decode(b) {
            Some(v) => Ok(v),
            None => Err(ReadError::Invalid),
        },
    }
}

/// The bytes a lookup finds are as many as were asked for.
pub proof fn lemma_lookup_len(regions: Seq<(u64, Seq<u8>)>, addr: u64, len: nat)
    ensures
        lookup_in(regions, addr, len) matches Some(b) ==> b.len() == len,
    decreases regions.len(),
{
    if regions.len() > 0 {
        lemma_lookup_len(regions.drop_last(), addr, len);
    }
}

/// A read of a snapshot has one possible outcome, which its bytes give.
pub proof fn lemma_image_read<T: Decode>(image: &MemoryImage, addr: u64, h: Result<T, ReadError>)
    ensures
        read_outcome(image, addr, h) <==> h == image_value::<T>(image, addr),
{
    lemma_lookup_len(image@, addr, T::spec_size());
    if h == image_value::<T>(image, addr) {
        if let Some(b) = image.lookup(addr, T::spec_size()) {
            assert(image.may_read(addr, T::spec_size(), Some(b)));
        }
    }
}

/// Reads are independent: where a read at one address fails, a read at
/// any other address that the snapshot holds and that decodes still
/// succeeds, with the value its bytes give.
pub proof fn lemma_failure_stays_local<T: Decode, U: Decode>(
    image: &MemoryImage,
    failed_at: u64,
    failed: Result<T, ReadError>,
    other_at: u64,
    other: Result<U, ReadError>,
)
    requires
        read_outcome(image, failed_at, failed),
        failed is Err,
        read_outcome(image, other_at, other),
        image.lookup(other_at, U::spec_size()) matches Some(b) && U::spec_decode(b) is Some,
    ensures
        other == Ok::<U, ReadError>(U::spec_decode(image.lookup(other_at, U::spec_size())->0)->0),
{
    lemma_image_read::<U>(image, other_at, other);
}

} // verus!
