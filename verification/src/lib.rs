//! mesh_tools: building glTF 2.0 documents and packing them into the binary GLB container.
//!
//! The library keeps the whole glTF document in plain Rust values, hands out the index of every
//! object it adds, lays vertex and image data out in one 4-byte aligned binary buffer and frames
//! the JSON text and that buffer as GLB bytes.
//!
//! Floating-point attributes (positions, colours, factors, key frames) are carried as their
//! IEEE-754 bit patterns ([`FloatBits`]): the library only stores them and writes their
//! little-endian bytes, it never computes with them.

pub mod bytes;
pub mod glb;
pub mod models;
pub mod error;
pub mod texture;
pub mod builder;
pub mod constants;
pub mod animation;
pub mod material;
pub mod builder_material;
pub mod builder_texture;
pub mod mesh;
pub mod builder_primitives;
pub mod primitives;
pub mod vertex_mesh;
pub mod modifiers;
pub mod gltf;
pub mod export;
