use vstd::bytes::{spec_u32_from_le_bytes, spec_u64_from_le_bytes, u32_from_le_bytes, u64_from_le_bytes};
use vstd::prelude::*;
use vstd::slice::slice_subrange;

use crate::image::{lemma_image_read, MemoryImage};
use crate::reader::{add_offset, offset_addr, MemoryReader, ReadError};
use crate::remote::{read_outcome, read_value, Decode, ProperlySized, Ptr};

verus! {

broadcast use crate::remote::lemma_ptr_at;

/// Where the `SceneTree` pointer sits in the game's main module.
pub const SCENE_TREE_IN_MODULE: u64 = 0x0424BE40;

/// `SceneTree::root`.
pub const ROOT_OFFSET: u64 = 0x2B0;

/// `SceneTree::current_frame`.
pub const CURRENT_FRAME_OFFSET: u64 = 0x330;

/// `Node::data.parent`.
pub const PARENT_OFFSET: u64 = 0x128;

/// `Node::data.owner`.
pub const OWNER_OFFSET: u64 = 0x130;

/// `Node::data.children`.
pub const CHILDREN_OFFSET: u64 = 0x138;

/// `Node::data.name`.
pub const NAME_OFFSET: u64 = 0x1D0;

/// `CanvasItem::global_transform`.
pub const GLOBAL_TRANSFORM_OFFSET: u64 = 0x450;

/// `Node2D::position`.
pub const POSITION_OFFSET: u64 = 0x48C;

/// `Node2D::rotation`.
pub const ROTATION_OFFSET: u64 = 0x494;

/// `Node2D::scale`.
pub const SCALE_OFFSET: u64 = 0x498;

/// The engine's `Object`, the base of every class.
#[derive(Clone, Copy, Debug)]
pub struct Object;

/// The runtime class of an `Object`: an address that is only compared.
#[derive(Clone, Copy, Debug, PartialEq, Eq, Structural)]
pub struct ObjectType(pub u64);

/// The engine's `SceneTree`, which owns the root of the scene graph.
#[derive(Clone, Copy, Debug)]
pub struct SceneTree;

/// The engine's `Node`, an `Object`.
#[derive(Clone, Copy, Debug)]
pub struct Node;

/// The engine's `CanvasItem`, a `Node`.
#[derive(Clone, Copy, Debug)]
pub struct CanvasItem;

/// The engine's `Node2D`, a `CanvasItem`.
#[derive(Clone, Copy, Debug)]
pub struct Node2D;

/// A pair of `f32` components, each held as its IEEE 754 bits.
#[derive(Clone, Copy, Debug, PartialEq, Eq, Structural)]
pub struct Vector2 {
    pub x: u32,
    pub y: u32,
}

/// A 2D affine transform: two basis columns and the origin, each component
/// an `f32` held as its IEEE 754 bits.
#[derive(Clone, Copy, Debug, PartialEq, Eq, Structural)]
pub struct Transform2D {
    pub x: Vector2,
    pub y: Vector2,
    pub origin: Vector2,
}

/// The vector that the eight bytes `b` hold.
pub open spec fn vector2_of(b: Seq<u8>) -> Vector2 {
    Vector2 {
        x: spec_u32_from_le_bytes(b.subrange(0, 4)),
        y: spec_u32_from_le_bytes(b.subrange(4, 8)),
    }
}

impl ProperlySized for ObjectType {
    open spec fn spec_size() -> nat {
        8
    }

    fn byte_size() -> (r: u64) {
        8
    }
}

impl Decode for ObjectType {
    open spec fn spec_decode(b: Seq<u8>) -> Option<ObjectType> {
        Some(ObjectType(spec_u64_from_le_bytes(b)))
    }

    fn decode(b: &[u8]) -> (r: Option<ObjectType>) {
        Some(ObjectType(u64_from_le_bytes(b)))
    }
}

fn decode_vector2(b: &[u8]) -> (r: Vector2)
    requires
        b@.len() == 8,
    ensures
        r == vector2_of(b@),
{
    let x = u32_from_le_bytes(slice_subrange(b, 0, 4));
    let y = u32_from_le_bytes(slice_subrange(b, 4, 8));
    Vector2 { x, y }
}

impl ProperlySized for Vector2 {
    open spec fn spec_size() -> nat {
        8
    }

    fn byte_size() -> (r: u64) {
        8
    }
}

impl Decode for Vector2 {
    open spec fn spec_decode(b: Seq<u8>) -> Option<Vector2> {
        Some(vector2_of(b))
    }

    fn decode(b: &[u8]) -> (r: Option<Vector2>) {
        Some(decode_vector2(b))
    }
}

impl ProperlySized for Transform2D {
    open spec fn spec_size() -> nat {
        24
    }

    fn byte_size() -> (r: u64) {
        24
    }
}

impl Decode for Transform2D {
    open spec fn spec_decode(b: Seq<u8>) -> Option<Transform2D> {
        Some(
            Transform2D {
                x: vector2_of(b.subrange(0, 8)),
                y: vector2_of(b.subrange(8, 16)),
                origin: vector2_of(b.subrange(16, 24)),
            },
        )
    }

    fn decode(b: &[u8]) -> (r: Option<Transform2D>) {
        Some(
            Transform2D {
                x: decode_vector2(slice_subrange(b, 0, 8)),
                y: decode_vector2(slice_subrange(b, 8, 16)),
                origin: decode_vector2(slice_subrange(b, 16, 24)),
            },
        )
    }
}

/// What reading a nullable `Node` address at `addr` may have produced:
/// the all-zero address is no node, any other one is that node.
pub open spec fn nullable_node_outcome<R: MemoryReader>(
    reader: &R,
    addr: u64,
    r: Result<Option<Ptr<Node>>, ReadError>,
) -> bool {
    match r {
        Ok(Some(p)) => p@ != 0 && read_outcome(reader, addr, Ok::<u64, ReadError>(p@)),
        Ok(None) => read_outcome(reader, addr, Ok::<u64, ReadError>(0)),
        Err(e) => read_outcome(reader, addr, Err::<u64, ReadError>(e)),
    }
}

fn read_nullable_node<R: MemoryReader>(reader: &R, addr: u64) -> (r: Result<
    Option<Ptr<Node>>,
    ReadError,
>)
    ensures
        nullable_node_outcome(reader, addr, r),
{
    match read_value::<u64, R>(reader, addr) {
        Ok(a) => {
            if a == 0 {
                Ok(None)
            } else {
                Ok(Some(Ptr::new(a)))
            }
        },
        Err(e) => Err(e),
    }
}

impl Ptr<Object> {
    /// Reads the object's runtime class, which sits at its start.
    pub fn get_type<R: MemoryReader>(self, reader: &R) -> (r: Result<ObjectType, ReadError>)
        ensures
            read_outcome(reader, self@, r),
    {
        read_value(reader, self.addr())
    }
}

impl SceneTree {
    /// Reads the address of the `SceneTree` from the game's main module,
    /// loaded at `module`.
    pub fn get<R: MemoryReader>(reader: &R, module: u64) -> (r: Result<Ptr<SceneTree>, ReadError>)
        ensures
            read_outcome(reader, offset_addr(module, SCENE_TREE_IN_MODULE), r),
    {
        read_value(reader, add_offset(module, SCENE_TREE_IN_MODULE))
    }
}

impl Ptr<SceneTree> {
    /// Reads the root node of the scene graph.
    pub fn get_root<R: MemoryReader>(self, reader: &R) -> (r: Result<Ptr<Node>, ReadError>)
        ensures
            read_outcome(reader, offset_addr(self@, ROOT_OFFSET), r),
    {
        read_value(reader, add_offset(self.addr(), ROOT_OFFSET))
    }

    /// Reads the engine's logical frame counter.
    pub fn get_current_frame<R: MemoryReader>(self, reader: &R) -> (r: Result<i64, ReadError>)
        ensures
            read_outcome(reader, offset_addr(self@, CURRENT_FRAME_OFFSET), r),
    {
        read_value(reader, add_offset(self.addr(), CURRENT_FRAME_OFFSET))
    }
}

impl Ptr<Node> {
    /// Reads the node's parent: `None` where it has none.
    pub fn get_parent<R: MemoryReader>(self, reader: &R) -> (r: Result<Option<Ptr<Node>>, ReadError>)
        ensures
            nullable_node_outcome(reader, offset_addr(self@, PARENT_OFFSET), r),
    {
        read_nullable_node(reader, add_offset(self.addr(), PARENT_OFFSET))
    }

    /// Reads the node's owner: `None` where it has none.
    pub fn get_owner<R: MemoryReader>(self, reader: &R) -> (r: Result<Option<Ptr<Node>>, ReadError>)
        ensures
            nullable_node_outcome(reader, offset_addr(self@, OWNER_OFFSET), r),
    {
        read_nullable_node(reader, add_offset(self.addr(), OWNER_OFFSET))
    }

    /// The node as an `Object`.
    pub open spec fn spec_as_object(self) -> Ptr<Object> {
        self.spec_cast::<Object>()
    }

    /// The node as an `Object`: no memory is read.
    #[verifier::when_used_as_spec(spec_as_object)]
    pub fn as_object(self) -> (r: Ptr<Object>)
        ensures
            r == self.spec_as_object(),
    {
        self.cast()
    }
}

impl Ptr<CanvasItem> {
    /// Reads the item's transform relative to the canvas.
    pub fn get_global_transform<R: MemoryReader>(self, reader: &R) -> (r: Result<Transform2D, ReadError>)
        ensures
            read_outcome(reader, offset_addr(self@, GLOBAL_TRANSFORM_OFFSET), r),
    {
        read_value(reader, add_offset(self.addr(), GLOBAL_TRANSFORM_OFFSET))
    }

    /// The item as a `Node`.
    pub open spec fn spec_as_node(self) -> Ptr<Node> {
        self.spec_cast::<Node>()
    }

    /// The item as a `Node`: no memory is read.
    #[verifier::when_used_as_spec(spec_as_node)]
    pub fn as_node(self) -> (r: Ptr<Node>)
        ensures
            r == self.spec_as_node(),
    {
        self.cast()
    }
}

impl Ptr<Node2D> {
    /// Reads the node's position relative to its parent.
    pub fn get_position<R: MemoryReader>(self, reader: &R) -> (r: Result<Vector2, ReadError>)
        ensures
            read_outcome(reader, offset_addr(self@, POSITION_OFFSET), r),
    {
        read_value(reader, add_offset(self.addr(), POSITION_OFFSET))
    }

    /// Reads the node's rotation in radians, as the bits of an `f32`.
    pub fn get_rotation<R: MemoryReader>(self, reader: &R) -> (r: Result<u32, ReadError>)
        ensures
            read_outcome(reader, offset_addr(self@, ROTATION_OFFSET), r),
    {
        read_value(reader, add_offset(self.addr(), ROTATION_OFFSET))
    }

    /// Reads the node's scale.
    pub fn get_scale<R: MemoryReader>(self, reader: &R) -> (r: Result<Vector2, ReadError>)
        ensures
            read_outcome(reader, offset_addr(self@, SCALE_OFFSET), r),
    {
        read_value(reader, add_offset(self.addr(), SCALE_OFFSET))
    }

    /// The node as a `CanvasItem`.
    pub open spec fn spec_as_canvas_item(self) -> Ptr<CanvasItem> {
        self.spec_cast::<CanvasItem>()
    }

    /// The node as a `CanvasItem`: no memory is read.
    #[verifier::when_used_as_spec(spec_as_canvas_item)]
    pub fn as_canvas_item(self) -> (r: Ptr<CanvasItem>)
        ensures
            r == self.spec_as_canvas_item(),
    {
        self.cast()
    }
}

/// Reinterpreting a `Node2D` as a `Node` and that as a `CanvasItem`, or
/// going up the class chain one step at a time, keeps the address; none of
/// it takes a reader.
pub proof fn lemma_upcast_identity(r: Ptr<Node2D>)
    ensures
        r.cast::<Node>().cast::<CanvasItem>()@ == r@,
        r.as_canvas_item().as_node().as_object()@ == r@,
{
}

/// A parent or owner field of a snapshot that holds the all-zero address
/// reads as no node: neither an error nor a reference.
pub proof fn lemma_null_link_is_absent(
    image: &MemoryImage,
    field: u64,
    r: Result<Option<Ptr<Node>>, ReadError>,
)
    requires
        nullable_node_outcome(image, field, r),
        image.lookup(field, 8) matches Some(b) && spec_u64_from_le_bytes(b) == 0,
    ensures
        r == Ok::<Option<Ptr<Node>>, ReadError>(None),
{
    match r {
        Ok(Some(p)) => lemma_image_read(image, field, Ok::<u64, ReadError>(p@)),
        Ok(None) => {},
        Err(e) => lemma_image_read(image, field, Err::<u64, ReadError>(e)),
    }
}

} // verus!
