use godot_inspect::godot::{
    CanvasItem, Node, Node2D, ObjectType, SceneTree, Transform2D, Vector2, CHILDREN_OFFSET,
    CURRENT_FRAME_OFFSET, GLOBAL_TRANSFORM_OFFSET, NAME_OFFSET, OWNER_OFFSET, PARENT_OFFSET,
    POSITION_OFFSET, ROOT_OFFSET, ROTATION_OFFSET, SCALE_OFFSET, SCENE_TREE_IN_MODULE,
};
use godot_inspect::hash_map::{HashMap, HEAD_OFFSET, KEY_OFFSET, LEN_OFFSET};
use godot_inspect::image::MemoryImage;
use godot_inspect::reader::{MemoryReader, ReadError};
use godot_inspect::remote::Ptr;
use godot_inspect::string_name::{StringName, StringNameData, BUFFER_OFFSET};

fn put_u64(image: &mut MemoryImage, addr: u64, v: u64) {
    image.map_bytes(addr, v.to_le_bytes().to_vec());
}

fn put_u32(image: &mut MemoryImage, addr: u64, v: u32) {
    image.map_bytes(addr, v.to_le_bytes().to_vec());
}

fn put_f32s(image: &mut MemoryImage, addr: u64, vs: &[f32]) {
    let mut bytes = Vec::new();
    for v in vs {
        bytes.extend_from_slice(&v.to_bits().to_le_bytes());
    }
    image.map_bytes(addr, bytes);
}

/// Lays out an interned string: the record at `data` points to a buffer at
/// `buf`, preceded by a header of `header`, holding `units`.
fn put_string(image: &mut MemoryImage, data: u64, buf: u64, header: u32, units: &[u32]) {
    put_u64(image, data + BUFFER_OFFSET, buf);
    put_u32(image, buf - 4, header);
    let mut bytes = Vec::new();
    for u in units {
        bytes.extend_from_slice(&u.to_le_bytes());
    }
    image.map_bytes(buf, bytes);
}

fn units_of(word: &str) -> Vec<u32> {
    word.chars().map(|c| c as u32).collect()
}

fn name_at(data: u64) -> StringName {
    StringName(Ptr::<StringNameData>::new(data))
}

#[test]
fn upcast_keeps_the_address() {
    let r = Ptr::<Node2D>::new(0x7fff_1234_5670);
    assert_eq!(r.cast::<Node>().cast::<CanvasItem>().addr(), r.addr());
    assert_eq!(r.as_canvas_item().as_node().as_object().addr(), 0x7fff_1234_5670);
    let copy = r;
    assert_eq!(copy.addr(), r.addr());
}

#[test]
fn null_parent_and_owner_are_absent() {
    let node = Ptr::<Node>::new(0x1000);
    let mut image = MemoryImage::new();
    put_u64(&mut image, 0x1000 + PARENT_OFFSET, 0);
    put_u64(&mut image, 0x1000 + OWNER_OFFSET, 0);
    assert!(matches!(node.get_parent(&image), Ok(None)));
    assert!(matches!(node.get_owner(&image), Ok(None)));
}

#[test]
fn parent_and_owner_are_read() {
    let node = Ptr::<Node>::new(0x1000);
    let mut image = MemoryImage::new();
    put_u64(&mut image, 0x1000 + PARENT_OFFSET, 0x2000);
    put_u64(&mut image, 0x1000 + OWNER_OFFSET, 0x3000);
    assert_eq!(node.get_parent(&image).unwrap().unwrap().addr(), 0x2000);
    assert_eq!(node.get_owner(&image).unwrap().unwrap().addr(), 0x3000);
}

#[test]
fn unreadable_parent_is_an_error() {
    let node = Ptr::<Node>::new(0x1000);
    let image = MemoryImage::new();
    assert!(matches!(node.get_parent(&image), Err(ReadError::Unreadable)));
}

/// A map at `map` whose list runs through `slots`.
fn put_list(image: &mut MemoryImage, map: u64, slots: &[u64]) {
    put_u64(image, map + HEAD_OFFSET, slots.first().copied().unwrap_or(0));
    for (i, slot) in slots.iter().enumerate() {
        put_u64(image, *slot, slots.get(i + 1).copied().unwrap_or(0));
    }
}

#[test]
fn walk_yields_each_element_then_stops() {
    let mut image = MemoryImage::new();
    let slots = [0x5000u64, 0x6000, 0x7000];
    put_list(&mut image, 0x4000, &slots);
    let map = Ptr::<HashMap<StringName, Ptr<Node>>>::new(0x4000);
    let mut it = map.iter(&image);
    for slot in slots {
        let (key, value) = it.next(&image).unwrap();
        assert_eq!(key.addr(), slot + KEY_OFFSET);
        assert_eq!(value.addr(), slot + KEY_OFFSET + 8);
    }
    assert!(it.next(&image).is_none());
    assert!(it.next(&image).is_none());
}

#[test]
fn walk_can_be_restarted() {
    let mut image = MemoryImage::new();
    put_list(&mut image, 0x4000, &[0x5000, 0x6000]);
    let map = Ptr::<HashMap<StringName, Ptr<Node>>>::new(0x4000);
    for _ in 0..2 {
        let mut it = map.iter(&image);
        let mut n = 0;
        while it.next(&image).is_some() {
            n += 1;
        }
        assert_eq!(n, 2);
    }
}

#[test]
fn walk_of_empty_map_yields_nothing() {
    let mut image = MemoryImage::new();
    put_list(&mut image, 0x4000, &[]);
    let map = Ptr::<HashMap<StringName, Ptr<Node>>>::new(0x4000);
    let mut it = map.iter(&image);
    assert!(it.next(&image).is_none());
}

#[test]
fn walk_of_unreadable_header_yields_nothing() {
    let image = MemoryImage::new();
    let map = Ptr::<HashMap<StringName, Ptr<Node>>>::new(0x4000);
    let mut it = map.iter(&image);
    assert!(it.next(&image).is_none());
}

#[test]
fn walk_ends_at_an_unreadable_link() {
    let mut image = MemoryImage::new();
    put_u64(&mut image, 0x4000 + HEAD_OFFSET, 0x5000);
    put_u64(&mut image, 0x5000, 0x6000);
    let map = Ptr::<HashMap<StringName, Ptr<Node>>>::new(0x4000);
    let mut it = map.iter(&image);
    assert_eq!(it.next(&image).unwrap().0.addr(), 0x5000 + KEY_OFFSET);
    assert!(it.next(&image).is_none());
    put_u64(&mut image, 0x6000, 0);
    assert!(it.next(&image).is_none());
}

#[test]
fn value_follows_a_four_byte_key() {
    let mut image = MemoryImage::new();
    put_list(&mut image, 0x4000, &[0x5000, 0x6000]);
    let map = Ptr::<HashMap<u32, u64>>::new(0x4000);
    let mut it = map.iter(&image);
    while let Some((key, value)) = it.next(&image) {
        assert_eq!(value.addr(), key.addr() + 4);
    }
}

#[test]
fn value_follows_an_eight_byte_key() {
    let mut image = MemoryImage::new();
    put_list(&mut image, 0x4000, &[0x5000, 0x6000]);
    let map = Ptr::<HashMap<u64, u32>>::new(0x4000);
    let mut it = map.iter(&image);
    let (key, value) = it.next(&image).unwrap();
    assert_eq!(key.addr(), 0x5010);
    assert_eq!(value.addr(), 0x5018);
}

#[test]
fn values_are_read_through_the_walk() {
    let mut image = MemoryImage::new();
    put_list(&mut image, 0x4000, &[0x5000]);
    put_u32(&mut image, 0x5000 + KEY_OFFSET, 7);
    put_u64(&mut image, 0x5000 + KEY_OFFSET + 4, 0xdead_beef_0000_0001);
    let map = Ptr::<HashMap<u32, u64>>::new(0x4000);
    let (key, value) = map.iter(&image).next(&image).unwrap();
    assert_eq!(key.deref(&image), Ok(7));
    assert_eq!(value.deref(&image), Ok(0xdead_beef_0000_0001));
}

#[test]
fn map_length_is_read_from_the_header() {
    let mut image = MemoryImage::new();
    put_u32(&mut image, 0x4000 + LEN_OFFSET, 3);
    let map = Ptr::<HashMap<StringName, Ptr<Node>>>::new(0x4000);
    assert_eq!(map.get_len(&image), Ok(3));
    assert_eq!(
        Ptr::<HashMap<StringName, Ptr<Node>>>::new(0x9000).get_len(&image),
        Err(ReadError::Unreadable)
    );
}

#[test]
fn string_decodes_to_its_word() {
    let mut image = MemoryImage::new();
    put_string(&mut image, 0x8000, 0x9004, 7, &units_of("Player"));
    let s = name_at(0x8000).read::<16, _>(&image).unwrap();
    assert_eq!(s.len(), 6);
    assert_eq!(s.chars().into_iter().collect::<String>(), "Player");
    assert!(s.matches_str("Player"));
    assert!(!s.matches_str("Playe"));
    assert!(!s.matches_str("Players"));
    assert!(!s.matches_str("player"));
}

#[test]
fn string_that_exactly_fits_decodes() {
    let mut image = MemoryImage::new();
    put_string(&mut image, 0x8000, 0x9004, 7, &units_of("Player"));
    let s = name_at(0x8000).read::<6, _>(&image).unwrap();
    assert!(s.matches_str("Player"));
}

#[test]
fn string_too_long_is_a_capacity_error() {
    let mut image = MemoryImage::new();
    put_string(&mut image, 0x8000, 0x9004, 7, &units_of("Player"));
    assert!(matches!(name_at(0x8000).read::<5, _>(&image), Err(ReadError::Capacity)));
    assert!(matches!(name_at(0x8000).read::<0, _>(&image), Err(ReadError::Capacity)));
}

#[test]
fn empty_string_decodes() {
    let mut image = MemoryImage::new();
    put_string(&mut image, 0x8000, 0x9004, 1, &[]);
    let s = name_at(0x8000).read::<0, _>(&image).unwrap();
    assert_eq!(s.len(), 0);
    assert!(s.chars().is_empty());
    assert!(s.matches_str(""));
    assert!(!s.matches_str("a"));
}

#[test]
fn zero_length_header_is_invalid() {
    let mut image = MemoryImage::new();
    put_string(&mut image, 0x8000, 0x9004, 0, &[]);
    assert!(matches!(name_at(0x8000).read::<8, _>(&image), Err(ReadError::Invalid)));
}

#[test]
fn string_with_missing_buffer_is_unreadable() {
    let mut image = MemoryImage::new();
    put_u64(&mut image, 0x8000 + BUFFER_OFFSET, 0x9004);
    put_u32(&mut image, 0x9000, 4);
    assert!(matches!(name_at(0x8000).read::<8, _>(&image), Err(ReadError::Unreadable)));
    let empty = MemoryImage::new();
    assert!(matches!(name_at(0x8000).read::<8, _>(&empty), Err(ReadError::Unreadable)));
}

#[test]
fn invalid_code_points_become_replacement_characters() {
    let mut image = MemoryImage::new();
    put_string(&mut image, 0x8000, 0x9004, 6, &[0x41, 0xD800, 0x11_0000, 0xE9, 0x1F600]);
    let s = name_at(0x8000).read::<8, _>(&image).unwrap();
    assert_eq!(
        s.chars(),
        vec!['A', char::REPLACEMENT_CHARACTER, char::REPLACEMENT_CHARACTER, 'é', '😀']
    );
    assert!(s.matches_str("A\u{FFFD}\u{FFFD}é😀"));
}

#[test]
fn node_name_is_decoded() {
    let mut image = MemoryImage::new();
    put_u64(&mut image, 0x1000 + NAME_OFFSET, 0x8000);
    put_string(&mut image, 0x8000, 0x9004, 5, &units_of("Root"));
    let node = Ptr::<Node>::new(0x1000);
    assert!(node.get_name::<8, _>(&image).unwrap().matches_str("Root"));
    assert!(matches!(node.get_name::<3, _>(&image), Err(ReadError::Capacity)));
}

#[test]
fn a_failed_field_read_stays_local() {
    let mut image = MemoryImage::new();
    let node = Ptr::<Node2D>::new(0x1000);
    let other = Ptr::<Node2D>::new(0x2000);
    put_f32s(&mut image, 0x1000 + SCALE_OFFSET, &[2.0, 3.0]);
    put_f32s(&mut image, 0x1000 + ROTATION_OFFSET, &[1.5]);
    put_f32s(&mut image, 0x2000 + POSITION_OFFSET, &[4.0, 5.0]);
    assert_eq!(node.get_position(&image), Err(ReadError::Unreadable));
    assert_eq!(
        node.get_scale(&image),
        Ok(Vector2 { x: 2.0f32.to_bits(), y: 3.0f32.to_bits() })
    );
    assert_eq!(node.get_rotation(&image), Ok(1.5f32.to_bits()));
    assert_eq!(
        other.get_position(&image),
        Ok(Vector2 { x: 4.0f32.to_bits(), y: 5.0f32.to_bits() })
    );
    assert_eq!(node.get_position(&image), Err(ReadError::Unreadable));
}

#[test]
fn partly_mapped_value_is_unreadable() {
    let mut image = MemoryImage::new();
    put_u32(&mut image, 0x1000 + POSITION_OFFSET, 0);
    assert_eq!(
        Ptr::<Node2D>::new(0x1000).get_position(&image),
        Err(ReadError::Unreadable)
    );
}

#[test]
fn later_region_wins() {
    let mut image = MemoryImage::new();
    put_u64(&mut image, 0x1000, 1);
    put_u64(&mut image, 0x1000, 2);
    assert_eq!(image.read_bytes(0x1000, 8), Some(2u64.to_le_bytes().to_vec()));
    assert_eq!(image.read_bytes(0x1004, 4), Some(vec![0, 0, 0, 0]));
    assert_eq!(image.read_bytes(0x1004, 8), None);
}

#[test]
fn transform_and_object_type_are_read() {
    let mut image = MemoryImage::new();
    put_f32s(
        &mut image,
        0x1000 + GLOBAL_TRANSFORM_OFFSET,
        &[1.0, 0.0, 0.0, 1.0, 10.0, -20.0],
    );
    put_u64(&mut image, 0x1000, 0xabcd);
    let t = Ptr::<CanvasItem>::new(0x1000).get_global_transform(&image).unwrap();
    let bits = |x: f32, y: f32| Vector2 { x: x.to_bits(), y: y.to_bits() };
    assert_eq!(
        t,
        Transform2D { x: bits(1.0, 0.0), y: bits(0.0, 1.0), origin: bits(10.0, -20.0) }
    );
    let object = Ptr::<CanvasItem>::new(0x1000).as_node().as_object();
    assert_eq!(object.get_type(&image), Ok(ObjectType(0xabcd)));
}

#[test]
fn scene_tree_root_and_frame_are_read() {
    let mut image = MemoryImage::new();
    let module = 0x1_4000_0000u64;
    put_u64(&mut image, module + SCENE_TREE_IN_MODULE, 0x2000);
    put_u64(&mut image, 0x2000 + ROOT_OFFSET, 0x3000);
    put_u64(&mut image, 0x2000 + CURRENT_FRAME_OFFSET, (-5i64) as u64);
    let tree = SceneTree::get(&image, module).unwrap();
    assert_eq!(tree.addr(), 0x2000);
    assert_eq!(tree.get_root(&image).unwrap().addr(), 0x3000);
    assert_eq!(tree.get_current_frame(&image), Ok(-5));
    assert!(SceneTree::get(&image, 0).is_err());
}

#[test]
fn field_addresses_wrap_around() {
    let node = Ptr::<Node>::new(u64::MAX - 0x37);
    assert_eq!(node.children().addr(), CHILDREN_OFFSET - 0x38);
    let mut image = MemoryImage::new();
    put_u64(&mut image, PARENT_OFFSET - 0x38, 0x10);
    assert_eq!(node.get_parent(&image).unwrap().unwrap().addr(), 0x10);
}

#[test]
fn player_position_is_found_from_the_scene_tree() {
    let module = 0x1_4000_0000u64;
    let tree_addr = 0x2_0000u64;
    let root_addr = 0x3_0000u64;
    let map_addr = root_addr + CHILDREN_OFFSET;
    let slot = 0x4_0000u64;
    let name_data = 0x5_0000u64;
    let buffer = 0x6_0004u64;
    let player_addr = 0x7_0000u64;

    let mut image = MemoryImage::new();
    put_u64(&mut image, module + SCENE_TREE_IN_MODULE, tree_addr);
    put_u64(&mut image, tree_addr + ROOT_OFFSET, root_addr);
    put_list(&mut image, map_addr, &[slot]);
    put_u64(&mut image, slot + KEY_OFFSET, name_data);
    put_u64(&mut image, slot + KEY_OFFSET + 8, player_addr);
    put_string(&mut image, name_data, buffer, 7, &units_of("Player"));
    put_f32s(&mut image, player_addr + POSITION_OFFSET, &[10.0, -500.0]);

    let tree = SceneTree::get(&image, module).unwrap();
    let root = tree.get_root(&image).unwrap();
    let mut children = root.children().iter(&image);
    let mut player = None;
    while let Some((key, value)) = children.next(&image) {
        let name = key.deref(&image).unwrap();
        if name.read::<16, _>(&image).unwrap().matches_str("Player") {
            player = Some(value.deref(&image).unwrap());
        }
    }
    let player = player.unwrap().cast::<Node2D>();
    let position = player.get_position(&image).unwrap();
    assert_eq!(f32::from_bits(position.x), 10.0);
    assert_eq!(f32::from_bits(position.y), -500.0);
}
