//! Shading and light-transport core of an offline physically-based renderer.
//!
//! The crate holds the discrete side of shading: lobe classification, the
//! per-point lobe list, the compilation of materials into lobes, the light
//! lifecycle and the rules by which imported scene data becomes textures,
//! materials and lights. Real numbers are carried as IEEE-754 binary32
//! encodings: the crate classifies, compares and routes them exactly, and
//! leaves arithmetic on them to the host.

pub mod bsdf;
pub mod bxdf;
pub mod document;
pub mod flags;
pub mod geometry;
pub mod importer;
pub mod interaction;
pub mod light;
pub mod material;
pub mod scalar;
pub mod scene;
pub mod shape;
pub mod spectrum;
pub mod texture;

use vstd::prelude::*;

verus! {

/// Which quantity a path carries: radiance from the camera, or importance
/// from a light.
#[derive(Clone, Copy, Debug, PartialEq, Eq, Structural)]
pub enum TransportMode {
    Radiance,
    Importance,
}

} // verus!
