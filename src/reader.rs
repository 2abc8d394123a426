use vstd::prelude::*;

verus! {

/// Why an operation on remote memory produced no value.
#[derive(Clone, Copy, Debug, PartialEq, Eq, Structural)]
pub enum ReadError {
    /// The bytes could not be read: the address is not mapped, or the
    /// process is gone.
    Unreadable,
    /// The bytes were read but do not form a value of the requested type.
    Invalid,
    /// The decoded value is larger than the bound the caller chose.
    Capacity,
}

/// The raw memory reader of a remote process.
///
/// The target process may change its memory at any time, so two reads of
/// the same bytes may disagree. `may_read` says which outcomes a read can
/// have: by default any, as for a live process; a reader of a fixed
/// snapshot pins it down to one.
pub trait MemoryReader {
    /// Whether a read of `len` bytes at `addr` may come back as `out`
    /// (`None` for a failed read).
    open spec fn may_read(&self, addr: u64, len: nat, out: Option<Seq<u8>>) -> bool {
        true
    }

    /// Reads `len` bytes starting at `addr`.
    fn read_bytes(&self, addr: u64, len: usize) -> (r: Option<Vec<u8>>)
        ensures
            match r {
                Some(b) => b@.len() == len && self.may_read(addr, len as nat, Some(b@)),
                None => self.may_read(addr, len as nat, None),
            },
    ;
}

/// The address `off` bytes after `base`, wrapping around the address space.
pub open spec fn offset_addr(base: u64, off: u64) -> u64 {
    if base + off > u64::MAX {
        (base + off - 0x1_0000_0000_0000_0000) as u64
    } else {
        (base + off) as u64
    }
}

/// Computes `offset_addr(base, off)`.
pub fn add_offset(base: u64, off: u64) -> (r: u64)
    ensures
        r == offset_addr(base, off),
{
    base.wrapping_add(off)
}

/// The address `off` bytes before `base`, wrapping around the address space.
pub open spec fn back_addr(base: u64, off: u64) -> u64 {
    if base < off {
        (base - off + 0x1_0000_0000_0000_0000) as u64
    } else {
        (base - off) as u64
    }
}

/// Computes `back_addr(base, off)`.
pub fn sub_offset(base: u64, off: u64) -> (r: u64)
    ensures
        r == back_addr(base, off),
{
    base.wrapping_sub(off)
}

} // verus!
