//! The types of the `gltf` crate that the library reads: plain enums, and
//! the pixel data of an image. They are declared with their variants and
//! fields, so that the library matches on them as on its own.

use vstd::prelude::*;

verus! {

#[verifier::external_type_specification]
pub struct ExWrappingMode(gltf::texture::WrappingMode);

#[verifier::external_type_specification]
pub struct ExFormat(gltf::image::Format);

#[verifier::external_type_specification]
pub struct ExData(gltf::image::Data);

#[verifier::external_type_specification]
pub struct ExAlphaMode(gltf::material::AlphaMode);

#[verifier::external_type_specification]
pub struct ExKind(gltf::khr_lights_punctual::Kind);

} // verus!
