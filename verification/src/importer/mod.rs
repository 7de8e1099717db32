//! The rules by which the data of an imported scene becomes textures,
//! materials, shapes and lights.

pub mod gltf;
