use vstd::bytes::{spec_u32_from_le_bytes, spec_u64_from_le_bytes, u32_from_le_bytes, u64_from_le_bytes};
use vstd::prelude::*;
use vstd::slice::slice_subrange;
use vstd::string::StrSliceExecFns;
use vstd::utf8::{char_is_scalar, is_scalar};

use crate::godot::{Node, NAME_OFFSET};
use crate::image::{lemma_image_read, MemoryImage};
use crate::reader::{add_offset, back_addr, offset_addr, sub_offset, MemoryReader, ReadError};
use crate::remote::{ptr_at, read_outcome, read_value, Decode, ProperlySized, Ptr};

verus! {

broadcast use crate::remote::lemma_ptr_at;

/// The record an interned string points to.
#[derive(Clone, Copy, Debug)]
pub struct StringNameData;

/// The engine's `StringName`: a handle to an interned string.
#[derive(Clone, Copy, Debug)]
pub struct StringName(pub Ptr<StringNameData>);

impl ProperlySized for StringName {
    open spec fn spec_size() -> nat {
        8
    }

    fn byte_size() -> (r: u64) {
        8
    }
}

impl Decode for StringName {
    open spec fn spec_decode(b: Seq<u8>) -> Option<StringName> {
        Some(StringName(ptr_at(spec_u64_from_le_bytes(b))))
    }

    fn decode(b: &[u8]) -> (r: Option<StringName>) {
        Some(StringName(Ptr::new(u64_from_le_bytes(b))))
    }
}

/// Where the address of the character buffer sits in a `StringNameData`.
pub const BUFFER_OFFSET: u64 = 0x10;

/// The size of the length header that precedes a character buffer. The
/// header holds the number of characters plus one (engine 4.2 and before).
pub const LENGTH_HEADER_SIZE: u64 = 4;

/// The scalar value the code unit `u` stands for: itself where it is one,
/// U+FFFD REPLACEMENT CHARACTER where it is not.
pub open spec fn scalar_of(u: u32) -> u32 {
    if is_scalar(u) {
        u
    } else {
        0xFFFD
    }
}

/// Whether `cs` are the characters that the code units `us` stand for.
pub open spec fn spells(us: Seq<u32>, cs: Seq<char>) -> bool {
    &&& cs.len() == us.len()
    &&& forall|i: int| 0 <= i < us.len() ==> #[trigger] (cs[i] as u32) == scalar_of(us[i])
}

/// The UTF-32 code units that the bytes `b` hold, four bytes each.
pub open spec fn units_of(b: Seq<u8>) -> Seq<u32> {
    Seq::new(b.len() / 4, |i: int| spec_u32_from_le_bytes(b.subrange(4 * i, 4 * i + 4)))
}

/// Relies on `char::from_u32`: `Some` exactly for the Unicode scalar
/// values, holding that value.
#[verifier::external_body]
fn char_from_u32(u: u32) -> (r: Option<char>)
    ensures
        match r {
            Some(c) => is_scalar(u) && c as u32 == u,
            None => !is_scalar(u),
        },
{
    char::from_u32(u)
}

fn scalar_value(u: u32) -> (r: u32)
    ensures
        r == scalar_of(u),
{
    if u < 0xD800 || (0xE000 <= u && u <= 0x10FFFF) {
        u
    } else {
        0xFFFD
    }
}

/// A decoded string of at most `N` UTF-32 code units, copied out of the
/// target process at one instant.
pub struct String<const N: usize> {
    units: Vec<u32>,
}

impl<const N: usize> View for String<N> {
    type V = Seq<u32>;

    closed spec fn view(&self) -> Seq<u32> {
        self.units@
    }
}

impl<const N: usize> String<N> {
    #[verifier::type_invariant]
    spec fn fits(self) -> bool {
        self.units@.len() <= N
    }

    /// The number of code units, at most `N`.
    pub fn len(&self) -> (r: usize)
        ensures
            r == self@.len(),
            r <= N,
    {
        proof {
            use_type_invariant(self);
        }
        self.units.len()
    }

    /// The characters, each code unit that is no Unicode scalar value
    /// replaced by U+FFFD.
    pub fn chars(&self) -> (r: Vec<char>)
        ensures
            spells(self@, r@),
    {
        let mut out: Vec<char> = Vec::new();
        let mut i: usize = 0;
        while i < self.units.len()
            invariant
                i <= self.units@.len(),
                spells(self@.take(i as int), out@),
            decreases self.units@.len() - i,
        {
            let c = match char_from_u32(self.units[i]) {
                Some(c) => c,
                None => '\u{FFFD}',
            };
            out.push(c);
            i = i + 1;
            assert(forall|j: int| 0 <= j < i ==> self@.take(i as int)[j] == self@[j]);
        }
        assert(self@.take(i as int) =~= self@);
        out
    }

    /// Whether the characters are those of `text`.
    pub fn matches_str(&self, text: &str) -> (r: bool)
        ensures
            r == spells(self@, text@),
    {
        let n = text.unicode_len();
        if n != self.units.len() {
            return false;
        }
        let mut i: usize = 0;
        while i < n
            invariant
                n == text@.len(),
                n == self@.len(),
                i <= n,
                forall|j: int| 0 <= j < i ==> #[trigger] (text@[j] as u32) == scalar_of(self@[j]),
            decreases n - i,
        {
            let c = text.get_char(i);
            if c as u32 != scalar_value(self.units[i]) {
                return false;
            }
            i = i + 1;
        }
        true
    }
}

/// What decoding the string whose character buffer is at `buf` may have
/// produced: the header before the buffer gives the number of characters
/// plus one, and those characters are read from the buffer in one go.
pub open spec fn buffer_outcome<const N: usize, R: MemoryReader>(
    reader: &R,
    buf: u64,
    r: Result<String<N>, ReadError>,
) -> bool {
    exists|h: Result<u32, ReadError>|
        #[trigger] read_outcome(reader, back_addr(buf, LENGTH_HEADER_SIZE), h) && match h {
            Err(e) => r == Err::<String<N>, ReadError>(e),
            Ok(header) => if header == 0 {
                r == Err::<String<N>, ReadError>(ReadError::Invalid)
            } else if header - 1 > N {
                r == Err::<String<N>, ReadError>(ReadError::Capacity)
            } else {
                exists|b: Option<Seq<u8>>|
                    #[trigger] reader.may_read(buf, (4 * (header - 1)) as nat, b) && match b {
                        None => r == Err::<String<N>, ReadError>(ReadError::Unreadable),
                        Some(bytes) => bytes.len() == 4 * (header - 1) && r is Ok && r->Ok_0@
                            == units_of(bytes),
                    }
            },
        }
}

/// What reading the string that the `StringNameData` at `data` names may
/// have produced.
pub open spec fn name_outcome<const N: usize, R: MemoryReader>(
    reader: &R,
    data: u64,
    r: Result<String<N>, ReadError>,
) -> bool {
    exists|c: Result<u64, ReadError>|
        #[trigger] read_outcome(reader, offset_addr(data, BUFFER_OFFSET), c) && match c {
            Err(e) => r == Err::<String<N>, ReadError>(e),
            Ok(buf) => buffer_outcome(reader, buf, r),
        }
}

fn read_buffer<const N: usize, R: MemoryReader>(reader: &R, buf: u64) -> (r: Result<
    String<N>,
    ReadError,
>)
    requires
        N <= usize::MAX / 4,
    ensures
        buffer_outcome(reader, buf, r),
{
    let h = read_value::<u32, R>(reader, sub_offset(buf, LENGTH_HEADER_SIZE));
    assert(read_outcome(reader, back_addr(buf, LENGTH_HEADER_SIZE), h));
    let header = match h {
        Ok(header) => header,
        Err(e) => return Err(e),
    };
    if header == 0 {
        return Err(ReadError::Invalid);
    }
    let count = (header - 1) as usize;
    if count > N {
        return Err(ReadError::Capacity);
    }
    let bytes = match reader.read_bytes(buf, count * 4) {
        Some(bytes) => bytes,
        None => {
            assert(reader.may_read(buf, (4 * (header - 1)) as nat, None));
            return Err(ReadError::Unreadable);
        },
    };
    assert(reader.may_read(buf, (4 * (header - 1)) as nat, Some(bytes@)));
    // A reader that Verus has not checked may return too few bytes.
    if bytes.len() != count * 4 {
        return Err(ReadError::Unreadable);
    }
    let mut units: Vec<u32> = Vec::new();
    let mut i: usize = 0;
    while i < count
        invariant
            N <= usize::MAX / 4,
            count <= N,
            bytes@.len() == 4 * count,
            i <= count,
            units@ =~= units_of(bytes@).take(i as int),
        decreases count - i,
    {
        let u = u32_from_le_bytes(slice_subrange(bytes.as_slice(), 4 * i, 4 * i + 4));
        units.push(u);
        i = i + 1;
    }
    assert(units_of(bytes@).take(count as int) =~= units_of(bytes@));
    Ok(String { units })
}

impl StringName {
    /// Reads the interned string, failing with `Capacity` where it holds
    /// more than `N` characters.
    pub fn read<const N: usize, R: MemoryReader>(self, reader: &R) -> (r: Result<String<N>, ReadError>)
        requires
            N <= usize::MAX / 4,
        ensures
            name_outcome(reader, self.0@, r),
    {
        let c = read_value::<u64, R>(reader, add_offset(self.0.addr(), BUFFER_OFFSET));
        match c {
            Ok(buf) => read_buffer(reader, buf),
            Err(e) => Err(e),
        }
    }
}

/// What reading the name of the node at `node` may have produced.
pub open spec fn node_name_outcome<const N: usize, R: MemoryReader>(
    reader: &R,
    node: u64,
    r: Result<String<N>, ReadError>,
) -> bool {
    exists|s: Result<StringName, ReadError>|
        #[trigger] read_outcome(reader, offset_addr(node, NAME_OFFSET), s) && match s {
            Err(e) => r == Err::<String<N>, ReadError>(e),
            Ok(name) => name_outcome(reader, name.0@, r),
        }
}

impl Ptr<Node> {
    /// Reads the node's name, failing with `Capacity` where it holds more
    /// than `N` characters.
    pub fn get_name<const N: usize, R: MemoryReader>(self, reader: &R) -> (r: Result<String<N>, ReadError>)
        requires
            N <= usize::MAX / 4,
        ensures
            node_name_outcome(reader, self@, r),
    {
        let s = read_value::<StringName, R>(reader, add_offset(self.addr(), NAME_OFFSET));
        match s {
            Ok(name) => name.read(reader),
            Err(e) => Err(e),
        }
    }
}

/// Decoding a string of a snapshot gives back the word its buffer spells.
///
/// Where the `StringNameData` at `data` points to a buffer at `buf`, the
/// header before the buffer holds n + 1 and the n code units in the buffer
/// are the characters of `word`: a read with room for n characters gives
/// `word`, and one with less room fails with `Capacity` rather than cut it
/// short.
pub proof fn lemma_decode_round_trip<const N: usize>(
    image: &MemoryImage,
    data: u64,
    buf: u64,
    word: Seq<char>,
    r: Result<String<N>, ReadError>,
)
    requires
        image.lookup(offset_addr(data, BUFFER_OFFSET), 8) matches Some(b) && spec_u64_from_le_bytes(b)
            == buf,
        image.lookup(back_addr(buf, LENGTH_HEADER_SIZE), 4) matches Some(h) && spec_u32_from_le_bytes(h)
            == word.len() + 1,
        image.lookup(buf, 4 * word.len()) matches Some(b) && units_of(b) == word.map_values(
            |c: char| c as u32,
        ),
        name_outcome(image, data, r),
    ensures
        word.len() <= N ==> r is Ok && spells(r->Ok_0@, word),
        word.len() > N ==> r == Err::<String<N>, ReadError>(ReadError::Capacity),
{
    let field = offset_addr(data, BUFFER_OFFSET);
    let c = choose|c: Result<u64, ReadError>|
        #[trigger] read_outcome(image, field, c) && match c {
            Err(e) => r == Err::<String<N>, ReadError>(e),
            Ok(buf) => buffer_outcome(image, buf, r),
        };
    lemma_image_read(image, field, c);
    let hdr = back_addr(buf, LENGTH_HEADER_SIZE);
    let h = choose|h: Result<u32, ReadError>|
        #[trigger] read_outcome(image, hdr, h) && match h {
            Err(e) => r == Err::<String<N>, ReadError>(e),
            Ok(header) => if header == 0 {
                r == Err::<String<N>, ReadError>(ReadError::Invalid)
            } else if header - 1 > N {
                r == Err::<String<N>, ReadError>(ReadError::Capacity)
            } else {
                exists|b: Option<Seq<u8>>|
                    #[trigger] image.may_read(buf, (4 * (header - 1)) as nat, b) && match b {
                        None => r == Err::<String<N>, ReadError>(ReadError::Unreadable),
                        Some(bytes) => bytes.len() == 4 * (header - 1) && r is Ok && r->Ok_0@
                            == units_of(bytes),
                    }
            },
        };
    lemma_image_read(image, hdr, h);
    if word.len() <= N {
        let n = (4 * word.len()) as nat;
        let b = choose|b: Option<Seq<u8>>|
            #[trigger] image.may_read(buf, n, b) && match b {
                None => r == Err::<String<N>, ReadError>(ReadError::Unreadable),
                Some(bytes) => bytes.len() == n && r is Ok && r->Ok_0@ == units_of(bytes),
            };
        assert(b == image.lookup(buf, n));
        assert forall|i: int| 0 <= i < word.len() implies #[trigger] (word[i] as u32) == scalar_of(
            r->Ok_0@[i],
        ) by {
            assert(r->Ok_0@[i] == word[i] as u32);
            char_is_scalar(word[i]);
        }
    }
}

} // verus!
