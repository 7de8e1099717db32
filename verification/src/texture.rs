//! Textures: constant values, and images that the host samples.
//!
//! Image textures live in an arena and are referred to by their slot, so
//! that several materials can share one. The pixels of an image are held by
//! the `image` crate; this module states what its buffers contain.

use crate::geometry::Point2;
use crate::interaction::SurfaceMediumInteraction;
use crate::scalar::Scalar;
use crate::spectrum::Spectrum;
use vstd::prelude::*;

verus! {

/// What a texture returns outside the unit square.
#[derive(Clone, Copy, Debug, PartialEq, Eq, Structural)]
pub enum WrapMode {
    Clamp,
    Repeat,
}

/// A scale and an offset applied to surface parameters before lookup.
#[derive(Clone, Copy, Debug, PartialEq, Eq, Structural)]
pub struct UVMap {
    pub su: Scalar,
    pub sv: Scalar,
    pub du: Scalar,
    pub dv: Scalar,
}

impl UVMap {
    pub fn new(su: Scalar, sv: Scalar, du: Scalar, dv: Scalar) -> (m: UVMap)
        ensures
            m == (UVMap { su, sv, du, dv }),
    {
        UVMap { su, sv, du, dv }
    }

    /// The mapping with scale 1 and offset 0.
    pub open spec fn identity() -> UVMap {
        UVMap {
            su: Scalar { bits: crate::scalar::ONE_BITS },
            sv: Scalar { bits: crate::scalar::ONE_BITS },
            du: Scalar { bits: 0 },
            dv: Scalar { bits: 0 },
        }
    }

    /// The mapping that leaves surface parameters as they are.
    pub fn unit() -> (m: UVMap)
        ensures
            m == UVMap::identity(),
    {
        UVMap::new(Scalar::one(), Scalar::one(), Scalar::zero(), Scalar::zero())
    }
}

/// An image of the `image` crate with three bytes per pixel: red, green,
/// blue, row by row.
#[verifier::external_body]
pub struct RgbTexels {
    image: image::RgbImage,
}

/// An image of the `image` crate with one byte per pixel, row by row.
#[verifier::external_body]
pub struct GrayTexels {
    image: image::GrayImage,
}

/// The bytes that the buffer of an RGB image holds.
pub uninterp spec fn rgb_texels_bytes(t: RgbTexels) -> Seq<u8>;

/// The width and height with which an RGB image was made.
pub uninterp spec fn rgb_texels_size(t: RgbTexels) -> (u32, u32);

/// The bytes that the buffer of a grey image holds.
pub uninterp spec fn gray_texels_bytes(t: GrayTexels) -> Seq<u8>;

/// The width and height with which a grey image was made.
pub uninterp spec fn gray_texels_size(t: GrayTexels) -> (u32, u32);

/// Whether a buffer of `len` bytes is taken for an RGB image of the given
/// size: the number of bytes in a row, three times the width, is a `usize`,
/// and the buffer holds at least as many bytes as all rows together.
pub open spec fn rgb_image_fits(width: u32, height: u32, len: nat) -> bool {
    3 * width <= usize::MAX && 3 * width * height <= len
}

/// `image::RgbImage::from_raw`: the needed length is three times the width
/// times the height, each product checked in `usize`; the image is made
/// exactly when neither product overflows and the buffer is at least that
/// long. It then owns the buffer as it is and records the two dimensions.
#[verifier::external_body]
fn rgb_from_raw(width: u32, height: u32, buf: Vec<u8>) -> (res: Option<RgbTexels>)
    ensures
        res.is_some() <==> (3 * width <= usize::MAX && 3 * width * height <= buf@.len()),
        res matches Some(t) ==> rgb_texels_bytes(t) == buf@ && rgb_texels_size(t) == (
            width,
            height,
        ),
{
    match image::RgbImage::from_raw(width, height, buf) {
        Some(image) => Some(RgbTexels { image }),
        None => None,
    }
}

/// `image::GrayImage::from_raw`: the needed length is the width times the
/// height, checked in `usize`, and the width itself always is a `usize`;
/// the image is made exactly when the buffer is at least that long. It
/// then owns the buffer as it is and records the two dimensions.
#[verifier::external_body]
fn gray_from_raw(width: u32, height: u32, buf: Vec<u8>) -> (res: Option<GrayTexels>)
    ensures
        res.is_some() <==> width * height <= buf@.len(),
        res matches Some(t) ==> gray_texels_bytes(t) == buf@ && gray_texels_size(t) == (
            width,
            height,
        ),
{
    match image::GrayImage::from_raw(width, height, buf) {
        Some(image) => Some(GrayTexels { image }),
        None => None,
    }
}

/// `ImageBuffer::as_raw` on an RGB image: a copy of the buffer.
#[verifier::external_body]
fn rgb_as_raw(t: &RgbTexels) -> (bytes: Vec<u8>)
    ensures
        bytes@ == rgb_texels_bytes(*t),
{
    t.image.as_raw().clone()
}

/// `ImageBuffer::dimensions` on an RGB image.
#[verifier::external_body]
fn rgb_dimensions(t: &RgbTexels) -> (size: (u32, u32))
    ensures
        size == rgb_texels_size(*t),
{
    t.image.dimensions()
}

/// `ImageBuffer::as_raw` on a grey image: a copy of the buffer.
#[verifier::external_body]
fn gray_as_raw(t: &GrayTexels) -> (bytes: Vec<u8>)
    ensures
        bytes@ == gray_texels_bytes(*t),
{
    t.image.as_raw().clone()
}

/// `ImageBuffer::dimensions` on a grey image.
#[verifier::external_body]
fn gray_dimensions(t: &GrayTexels) -> (size: (u32, u32))
    ensures
        size == gray_texels_size(*t),
{
    t.image.dimensions()
}

impl RgbTexels {
    /// An image over `buf`, if `buf` is taken for an image of this size.
    pub fn from_raw(width: u32, height: u32, buf: Vec<u8>) -> (res: Option<RgbTexels>)
        ensures
            res.is_some() <==> rgb_image_fits(width, height, buf@.len()),
            res matches Some(t) ==> rgb_texels_bytes(t) == buf@ && rgb_texels_size(t) == (
                width,
                height,
            ),
    {
        rgb_from_raw(width, height, buf)
    }

    /// Whether a buffer of `len` bytes is taken for an image of this size.
    pub fn fits(width: u32, height: u32, len: usize) -> (r: bool)
        ensures
            r == rgb_image_fits(width, height, len as nat),
    {
        proof {
            assert(width * height <= 0xffff_ffff * 0xffff_ffff) by (nonlinear_arith)
                requires
                    0 <= width <= 0xffff_ffff,
                    0 <= height <= 0xffff_ffff,
            ;
            assert(3 * width * height == 3 * (width * height)) by (nonlinear_arith);
        }
        3u128 * (width as u128) <= usize::MAX as u128 && 3u128 * ((width as u128) * (
        height as u128)) <= len as u128
    }

    pub fn to_vec(&self) -> (bytes: Vec<u8>)
        ensures
            bytes@ == rgb_texels_bytes(*self),
    {
        rgb_as_raw(self)
    }

    pub fn dimensions(&self) -> (size: (u32, u32))
        ensures
            size == rgb_texels_size(*self),
    {
        rgb_dimensions(self)
    }
}

impl GrayTexels {
    /// An image over `buf`, if `buf` holds at least `width * height` bytes.
    pub fn from_raw(width: u32, height: u32, buf: Vec<u8>) -> (res: Option<GrayTexels>)
        ensures
            res.is_some() <==> width * height <= buf@.len(),
            res matches Some(t) ==> gray_texels_bytes(t) == buf@ && gray_texels_size(t) == (
                width,
                height,
            ),
    {
        gray_from_raw(width, height, buf)
    }

    pub fn to_vec(&self) -> (bytes: Vec<u8>)
        ensures
            bytes@ == gray_texels_bytes(*self),
    {
        gray_as_raw(self)
    }

    pub fn dimensions(&self) -> (size: (u32, u32))
        ensures
            size == gray_texels_size(*self),
    {
        gray_dimensions(self)
    }
}

/// A colour image with the factor that scales its values.
pub struct SpectrumImageTexture {
    pub texels: RgbTexels,
    pub factor: Spectrum,
    pub wrap_mode: WrapMode,
    pub mapping: UVMap,
    /// Whether the bytes are gamma-encoded and have to be made linear.
    pub gamma: bool,
}

/// A single-channel image with the factor that scales its values.
pub struct ScalarImageTexture {
    pub texels: GrayTexels,
    pub factor: Scalar,
    pub wrap_mode: WrapMode,
    pub mapping: UVMap,
}

/// An image of tangent-space normals with the scale of their x and y.
pub struct NormalMap {
    pub texels: RgbTexels,
    pub scale: Point2,
    pub wrap_mode: WrapMode,
    pub mapping: UVMap,
}

/// The image textures of a scene, by kind. A texture is known by its slot,
/// its index in the list of its kind.
pub struct TextureArena {
    pub spectra: Vec<SpectrumImageTexture>,
    pub scalars: Vec<ScalarImageTexture>,
    pub normals: Vec<NormalMap>,
}

impl TextureArena {
    pub fn new() -> (a: TextureArena)
        ensures
            a.spectra@.len() == 0,
            a.scalars@.len() == 0,
            a.normals@.len() == 0,
    {
        TextureArena { spectra: Vec::new(), scalars: Vec::new(), normals: Vec::new() }
    }
}

/// A texture with colour values.
#[derive(Clone, Copy, Debug, PartialEq, Eq, Structural)]
pub enum SpectrumTexture {
    /// The same value everywhere.
    Constant(Spectrum),
    /// The colour image in the given slot.
    Image(usize),
}

/// A texture with real values.
#[derive(Clone, Copy, Debug, PartialEq, Eq, Structural)]
pub enum ScalarTexture {
    /// The same value everywhere.
    Constant(Scalar),
    /// The single-channel image in the given slot.
    Image(usize),
}

impl SpectrumTexture {
    /// Whether the texture is a constant or refers to one of the first
    /// `images` colour images.
    pub open spec fn within(self, images: nat) -> bool {
        match self {
            SpectrumTexture::Constant(_) => true,
            SpectrumTexture::Image(slot) => slot < images,
        }
    }

    /// Whether the interaction carries a value for this texture.
    pub open spec fn sampled(self, si: SurfaceMediumInteraction) -> bool {
        match self {
            SpectrumTexture::Constant(_) => true,
            SpectrumTexture::Image(slot) => slot < si.texels.spectra@.len(),
        }
    }

    /// The value of the texture at the interaction: the constant, or the
    /// sample in the slot of the image; black where the interaction
    /// carries no sample for the slot.
    pub open spec fn value_at(self, si: SurfaceMediumInteraction) -> Spectrum {
        match self {
            SpectrumTexture::Constant(v) => v,
            SpectrumTexture::Image(slot) => if slot < si.texels.spectra@.len() {
                si.texels.spectra@[slot as int]
            } else {
                Spectrum { r: Scalar { bits: 0 }, g: Scalar { bits: 0 }, b: Scalar { bits: 0 } }
            },
        }
    }

    pub fn is_sampled(&self, si: &SurfaceMediumInteraction) -> (r: bool)
        ensures
            r == self.sampled(*si),
    {
        match self {
            SpectrumTexture::Constant(_) => true,
            SpectrumTexture::Image(slot) => *slot < si.texels.spectra.len(),
        }
    }

    /// The value at the interaction: the constant, or the sample that the
    /// host took from the image in the texture's slot. A missing sample
    /// shows as black.
    pub fn evaluate(&self, si: &SurfaceMediumInteraction) -> (v: Spectrum)
        ensures
            v == self.value_at(*si),
    {
        match self {
            SpectrumTexture::Constant(v) => *v,
            SpectrumTexture::Image(slot) => if *slot < si.texels.spectra.len() {
                si.texels.spectra[*slot]
            } else {
                Spectrum::new(Scalar::zero())
            },
        }
    }
}

impl ScalarTexture {
    /// Whether the texture is a constant or refers to one of the first
    /// `images` single-channel images.
    pub open spec fn within(self, images: nat) -> bool {
        match self {
            ScalarTexture::Constant(_) => true,
            ScalarTexture::Image(slot) => slot < images,
        }
    }

    /// Whether the interaction carries a value for this texture.
    pub open spec fn sampled(self, si: SurfaceMediumInteraction) -> bool {
        match self {
            ScalarTexture::Constant(_) => true,
            ScalarTexture::Image(slot) => slot < si.texels.scalars@.len(),
        }
    }

    /// The value of the texture at the interaction: the constant, or the
    /// sample in the slot of the image; zero where the interaction carries
    /// no sample for the slot.
    pub open spec fn value_at(self, si: SurfaceMediumInteraction) -> Scalar {
        match self {
            ScalarTexture::Constant(v) => v,
            ScalarTexture::Image(slot) => if slot < si.texels.scalars@.len() {
                si.texels.scalars@[slot as int]
            } else {
                Scalar { bits: 0 }
            },
        }
    }

    pub fn is_sampled(&self, si: &SurfaceMediumInteraction) -> (r: bool)
        ensures
            r == self.sampled(*si),
    {
        match self {
            ScalarTexture::Constant(_) => true,
            ScalarTexture::Image(slot) => *slot < si.texels.scalars.len(),
        }
    }

    /// The value at the interaction: the constant, or the sample that the
    /// host took from the image in the texture's slot. A missing sample
    /// shows as zero.
    pub fn evaluate(&self, si: &SurfaceMediumInteraction) -> (v: Scalar)
        ensures
            v == self.value_at(*si),
    {
        match self {
            ScalarTexture::Constant(v) => *v,
            ScalarTexture::Image(slot) => if *slot < si.texels.scalars.len() {
                si.texels.scalars[*slot]
            } else {
                Scalar::zero()
            },
        }
    }
}

} // verus!
