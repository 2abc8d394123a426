use core::marker::PhantomData;
use vstd::bytes::spec_u64_from_le_bytes;
use vstd::prelude::*;

use crate::godot::{Node, CHILDREN_OFFSET};
use crate::image::{lemma_image_read, MemoryImage};
use crate::reader::{add_offset, offset_addr, MemoryReader, ReadError};
use crate::remote::{read_outcome, read_value, ProperlySized, Ptr};
use crate::string_name::StringName;

verus! {

broadcast use crate::remote::lemma_ptr_at;

/// Where the first element of the map's list is held in its header.
pub const HEAD_OFFSET: u64 = 0x18;

/// Where the number of elements is held in the map's header.
pub const LEN_OFFSET: u64 = 0x2C;

/// Where the key starts in an element, after the list and bucket links.
pub const KEY_OFFSET: u64 = 0x10;

/// The engine's `HashMap<K, V>`, whose elements form a singly linked list.
///
/// Each element holds the address of the next one at its start, its key at
/// `KEY_OFFSET` and its value right after the key.
#[derive(Debug)]
pub struct HashMap<K, V> {
    marker: PhantomData<(K, V)>,
}

/// A walk over the elements of a remote `HashMap`, which reads the list one
/// link at a time.
pub struct MapIter<K, V> {
    current: u64,
    marker: PhantomData<(K, V)>,
}

impl<K, V> View for MapIter<K, V> {
    type V = u64;

    /// The address of the element the walk comes to next; zero once it is
    /// over.
    closed spec fn view(&self) -> u64 {
        self.current
    }
}

/// The key and value references of the element at `slot`.
pub open spec fn entry_at<K: ProperlySized, V>(slot: u64, e: (Ptr<K>, Ptr<V>)) -> bool {
    e.0@ == offset_addr(slot, KEY_OFFSET) && e.1@ == offset_addr(e.0@, K::spec_size() as u64)
}

/// What one step of a walk that stands at `cur` may have given: `r` handed
/// out and `next` to stand at after it.
///
/// A walk at zero is over. Otherwise the step reads the link at `cur`: where
/// that works it hands out the element at `cur` and moves on along the
/// link; where it fails the walk ends there.
pub open spec fn step_outcome<K: ProperlySized, V, R: MemoryReader>(
    reader: &R,
    cur: u64,
    r: Option<(Ptr<K>, Ptr<V>)>,
    next: u64,
) -> bool {
    if cur == 0 {
        r is None && next == 0
    } else {
        match r {
            Some(e) => entry_at(cur, e) && read_outcome(reader, cur, Ok::<u64, ReadError>(next)),
            None => next == 0 && read_outcome(reader, cur, Err::<u64, ReadError>(ReadError::Unreadable)),
        }
    }
}

/// Where a walk over the map at `map` may start: at the head its header
/// holds, or already over where that cannot be read.
pub open spec fn start_outcome<R: MemoryReader>(reader: &R, map: u64, start: u64) -> bool {
    ||| read_outcome(reader, offset_addr(map, HEAD_OFFSET), Ok::<u64, ReadError>(start))
    ||| start == 0 && read_outcome(
        reader,
        offset_addr(map, HEAD_OFFSET),
        Err::<u64, ReadError>(ReadError::Unreadable),
    )
}

impl<K, V> MapIter<K, V> {
    /// Hands out the key and value of the next element, or `None` once the
    /// walk is over.
    pub fn next<R: MemoryReader>(&mut self, reader: &R) -> (r: Option<(Ptr<K>, Ptr<V>)>) where
        K: ProperlySized,

        ensures
            step_outcome(reader, old(self)@, r, final(self)@),
    {
        if self.current == 0 {
            return None;
        }
        let slot = self.current;
        match read_value::<u64, R>(reader, slot) {
            Ok(next) => {
                let key = add_offset(slot, KEY_OFFSET);
                let value = add_offset(key, K::byte_size());
                self.current = next;
                Some((Ptr::new(key), Ptr::new(value)))
            },
            Err(_) => {
                self.current = 0;
                None
            },
        }
    }
}

impl<K, V> Ptr<HashMap<K, V>> {
    /// Starts a walk over the map's elements at the head of its list; a
    /// walk whose head cannot be read is over at once.
    pub fn iter<R: MemoryReader>(self, reader: &R) -> (r: MapIter<K, V>)
        ensures
            start_outcome(reader, self@, r@),
    {
        let current = match read_value::<u64, R>(reader, add_offset(self.addr(), HEAD_OFFSET)) {
            Ok(head) => head,
            Err(_) => 0,
        };
        MapIter { current, marker: PhantomData }
    }

    /// Reads the number of elements the map holds.
    pub fn get_len<R: MemoryReader>(self, reader: &R) -> (r: Result<u32, ReadError>)
        ensures
            read_outcome(reader, offset_addr(self@, LEN_OFFSET), r),
    {
        read_value(reader, add_offset(self.addr(), LEN_OFFSET))
    }
}

impl Ptr<Node> {
    /// The node's children, keyed by name: no memory is read.
    pub fn children(self) -> (r: Ptr<HashMap<StringName, Ptr<Node>>>)
        ensures
            r@ == offset_addr(self@, CHILDREN_OFFSET),
    {
        Ptr::new(add_offset(self.addr(), CHILDREN_OFFSET))
    }
}

/// The address the link at `slot` of `image` holds, where it holds one.
pub open spec fn link_in(image: &MemoryImage, slot: u64) -> Option<u64> {
    match image.lookup(slot, 8) {
        Some(b) => Some(spec_u64_from_le_bytes(b)),
        None => None,
    }
}

/// Whether `slots` are, in order, the elements of a list in `image`: none
/// of them is zero, each links to the next one and the last one to zero.
pub open spec fn is_list(image: &MemoryImage, slots: Seq<u64>) -> bool {
    forall|i: int|
        0 <= i < slots.len() ==> slots[i] != 0 && #[trigger] link_in(image, slots[i]) == Some(
            if i + 1 < slots.len() {
                slots[i + 1]
            } else {
                0u64
            },
        )
}

/// The first element of the list `slots`, or zero where it is empty.
pub open spec fn list_head(slots: Seq<u64>) -> u64 {
    if slots.len() == 0 {
        0
    } else {
        slots[0]
    }
}

/// After `i` steps along a list of a snapshot, the walk stands at the
/// `i`-th element, having handed out the ones before it.
proof fn lemma_walk_prefix<K: ProperlySized, V>(
    image: &MemoryImage,
    slots: Seq<u64>,
    states: Seq<u64>,
    outs: Seq<Option<(Ptr<K>, Ptr<V>)>>,
    i: int,
)
    requires
        is_list(image, slots),
        states.len() == slots.len() + 2,
        outs.len() == slots.len() + 1,
        states[0] == list_head(slots),
        forall|j: int|
            0 <= j <= slots.len() ==> step_outcome(image, states[j], #[trigger] outs[j], states[j + 1]),
        0 <= i <= slots.len(),
    ensures
        states[i] == (if i < slots.len() {
            slots[i]
        } else {
            0u64
        }),
        forall|j: int| 0 <= j < i ==> #[trigger] outs[j] is Some && entry_at(slots[j], outs[j]->0),
    decreases i,
{
    if i > 0 {
        let p = i - 1;
        lemma_walk_prefix(image, slots, states, outs, p);
        assert(link_in(image, slots[p]) is Some);
        assert(step_outcome(image, states[p], outs[p], states[p + 1]));
        match outs[p] {
            Some(e) => lemma_image_read(image, slots[p], Ok::<u64, ReadError>(states[p + 1])),
            None => lemma_image_read(image, slots[p], Err::<u64, ReadError>(ReadError::Unreadable)),
        }
    }
}

/// A walk over a map of a snapshot whose header heads a list of `k`
/// elements (`slots`; none where the head is zero) hands out, in `k + 1`
/// steps, exactly those elements in order and then ends: `states` are where
/// it stands before and after each step, `outs` what each step hands out.
pub proof fn lemma_walk_hands_out_list<K: ProperlySized, V>(
    image: &MemoryImage,
    map: u64,
    slots: Seq<u64>,
    states: Seq<u64>,
    outs: Seq<Option<(Ptr<K>, Ptr<V>)>>,
)
    requires
        is_list(image, slots),
        link_in(image, offset_addr(map, HEAD_OFFSET)) == Some(list_head(slots)),
        states.len() == slots.len() + 2,
        outs.len() == slots.len() + 1,
        start_outcome(image, map, states[0]),
        forall|i: int|
            0 <= i <= slots.len() ==> step_outcome(image, states[i], #[trigger] outs[i], states[i + 1]),
    ensures
        forall|i: int| 0 <= i < slots.len() ==> #[trigger] outs[i] is Some && entry_at(slots[i], outs[i]->0),
        outs[slots.len() as int] is None,
{
    let k = slots.len() as int;
    let head = offset_addr(map, HEAD_OFFSET);
    lemma_image_read(image, head, Ok::<u64, ReadError>(states[0]));
    lemma_image_read(image, head, Err::<u64, ReadError>(ReadError::Unreadable));
    lemma_walk_prefix(image, slots, states, outs, k);
    assert(step_outcome(image, states[k], outs[k], states[k + 1]));
}

} // verus!
