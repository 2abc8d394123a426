//! A read-only, typed view of a game engine's object graph inside another
//! process: typed remote references, the engine's class chain, its linked
//! hash map and its interned strings; and the split rules of an auto
//! splitter built on it.

pub mod godot;
pub mod hash_map;
pub mod image;
pub mod reader;
pub mod remote;
pub mod splits;
pub mod string_name;
