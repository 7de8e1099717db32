//! Import from glTF. The host reads the document and composes transforms;
//! this module takes the plain values that it read and decides what they
//! become.

use crate::geometry::Point2;
use crate::geometry::Sphere;
use crate::interaction::SurfaceMediumInteraction;
use crate::light::DiffuseAreaLight;
use crate::light::InfiniteAreaLight;
use crate::light::Light;
use crate::light::LightInterface;
use crate::light::LightPlacement;
use crate::flags::LightFlag;
use crate::flags::LightFlags;
use crate::material::textures_stay_within;
use crate::material::white;
use crate::material::with_normal;
use crate::material::DisneyMaterial;
use crate::material::GlassMaterial;
use crate::material::Material;
use crate::material::MatteMaterial;
use crate::material::MirrorMaterial;
use crate::material::NormalMaterial;
use crate::scalar::Scalar;
use crate::scalar::ONE_BITS;
use crate::scene::primitives_refer;
use crate::scene::primitives_refer_on;
use crate::scene::Extent;
use crate::scene::GeometricPrimitive;
use crate::scene::RenderScene;
use crate::shape::faces_from_indices;
use crate::shape::faces_of;
use crate::shape::triangles_from_mesh;
use crate::shape::triangles_of;
use crate::shape::Triangle;
use crate::shape::TriangleMesh;
use crate::spectrum::Spectrum;
use crate::texture::gray_texels_bytes;
use crate::texture::gray_texels_size;
use crate::texture::rgb_image_fits;
use crate::texture::rgb_texels_bytes;
use crate::texture::rgb_texels_size;
use crate::texture::GrayTexels;
use crate::texture::NormalMap;
use crate::texture::RgbTexels;
use crate::texture::ScalarImageTexture;
use crate::texture::ScalarTexture;
use crate::texture::SpectrumImageTexture;
use crate::texture::SpectrumTexture;
use crate::texture::TextureArena;
use crate::texture::UVMap;
use crate::texture::WrapMode;
use vstd::prelude::*;

verus! {

/// The wrap mode that stands for a wrapping mode of glTF: clamping for
/// clamping, repetition both for repetition and for mirrored repetition.
pub open spec fn wrap_mode_of(gltf_wrap: gltf::texture::WrappingMode) -> WrapMode {
    match gltf_wrap {
        gltf::texture::WrappingMode::ClampToEdge => WrapMode::Clamp,
        gltf::texture::WrappingMode::MirroredRepeat => WrapMode::Repeat,
        gltf::texture::WrappingMode::Repeat => WrapMode::Repeat,
    }
}

pub fn wrap_mode_from_gtlf(gltf_wrap: gltf::texture::WrappingMode) -> (mode: WrapMode)
    ensures
        mode == wrap_mode_of(gltf_wrap),
{
    match gltf_wrap {
        gltf::texture::WrappingMode::ClampToEdge => WrapMode::Clamp,
        gltf::texture::WrappingMode::MirroredRepeat => WrapMode::Repeat,
        gltf::texture::WrappingMode::Repeat => WrapMode::Repeat,
    }
}

/// What a material says of one of its textures: the index of the image
/// among the images of the document, and how the sampler wraps in each
/// direction.
#[derive(Clone, Copy, Debug)]
pub struct TextureInfo {
    pub source: usize,
    pub wrap_s: gltf::texture::WrappingMode,
    pub wrap_t: gltf::texture::WrappingMode,
}

/// Whether two wrapping modes are the same.
pub fn same_wrapping(a: gltf::texture::WrappingMode, b: gltf::texture::WrappingMode) -> (r: bool)
    ensures
        r == (a == b),
{
    match (a, b) {
        (gltf::texture::WrappingMode::ClampToEdge, gltf::texture::WrappingMode::ClampToEdge) => true,
        (
            gltf::texture::WrappingMode::MirroredRepeat,
            gltf::texture::WrappingMode::MirroredRepeat,
        ) => true,
        (gltf::texture::WrappingMode::Repeat, gltf::texture::WrappingMode::Repeat) => true,
        _ => false,
    }
}

impl TextureInfo {
    /// Whether the texture can be read: its image exists, and it wraps in
    /// the same way in both directions.
    pub open spec fn readable(self, images: Seq<gltf::image::Data>) -> bool {
        self.source < images.len() && self.wrap_s == self.wrap_t
    }

    pub fn is_readable(&self, images: &Vec<gltf::image::Data>) -> (r: bool)
        ensures
            r == self.readable(images@),
    {
        self.source < images.len() && same_wrapping(self.wrap_s, self.wrap_t)
    }
}

/// The bytes of `s` from index `first` on, every `stride`-th one.
pub open spec fn strided(s: Seq<u8>, first: nat, stride: nat) -> Seq<u8>
    decreases
        if first < s.len() {
            s.len() - first
        } else {
            0
        },
{
    if first >= s.len() || stride == 0 {
        Seq::<u8>::empty()
    } else {
        seq![s[first as int]] + strided(s, first + stride, stride)
    }
}

/// A channel that starts later has no more bytes than one that starts
/// earlier.
pub proof fn later_channel_is_no_longer(s: Seq<u8>, a: nat, b: nat, stride: nat)
    requires
        a <= b,
    ensures
        strided(s, b, stride).len() <= strided(s, a, stride).len(),
    decreases
        if a < s.len() {
            s.len() - a
        } else {
            0
        },
{
    if b < s.len() && stride > 0 {
        later_channel_is_no_longer(s, a + stride, b + stride, stride);
    }
}

/// The bytes of `s` without every fourth one: the colour channels of
/// pixels that have an alpha channel.
pub open spec fn without_alpha(s: Seq<u8>) -> Seq<u8> {
    Seq::new((s.len() - s.len() / 4) as nat, |j: int| s[j + j / 3])
}

/// Every `stride`-th byte of `pixels` from index `first` on.
pub fn channel(pixels: &Vec<u8>, first: usize, stride: usize) -> (out: Vec<u8>)
    requires
        stride > 0,
    ensures
        out@ == strided(pixels@, first as nat, stride as nat),
{
    let n: usize = pixels.len();
    let mut out: Vec<u8> = Vec::new();
    let mut i: usize = first;
    while i < n
        invariant
            n == pixels@.len(),
            stride > 0,
            i >= first,
            out@ + strided(pixels@, i as nat, stride as nat) == strided(
                pixels@,
                first as nat,
                stride as nat,
            ),
        decreases n - i,
    {
        out.push(pixels[i]);
        proof {
            assert(out@ + strided(pixels@, (i + stride) as nat, stride as nat) =~= out@.drop_last()
                + strided(pixels@, i as nat, stride as nat));
        }
        if n - i <= stride {
            proof {
                assert(strided(pixels@, (i + stride) as nat, stride as nat) =~= Seq::<u8>::empty());
                assert(out@ =~= out@ + Seq::<u8>::empty());
            }
            return out;
        }
        i = i + stride;
    }
    proof {
        assert(out@ =~= out@ + Seq::<u8>::empty());
    }
    out
}

/// The bytes of `pixels` without every fourth one.
pub fn strip_alpha(pixels: &Vec<u8>) -> (out: Vec<u8>)
    ensures
        out@ == without_alpha(pixels@),
{
    let n: usize = pixels.len();
    let mut out: Vec<u8> = Vec::new();
    let mut i: usize = 0;
    while i < n
        invariant
            n == pixels@.len(),
            i <= n,
            out@.len() == i - i / 4,
            forall|j: int| 0 <= j < out@.len() ==> out@[j] == pixels@[j + j / 3],
        decreases n - i,
    {
        if i % 4 != 3 {
            out.push(pixels[i]);
        }
        i = i + 1;
    }
    assert(out@ =~= without_alpha(pixels@));
    out
}

/// The colour bytes of an image, three per pixel; `None` for a format that
/// colour textures do not take.
pub open spec fn color_bytes(image: gltf::image::Data) -> Option<Seq<u8>> {
    match image.format {
        gltf::image::Format::R8G8B8 => Some(image.pixels@),
        gltf::image::Format::R8G8B8A8 => Some(without_alpha(image.pixels@)),
        _ => None,
    }
}

/// Whether an image gives a colour texture: it has a format that colour
/// textures take, and its colour bytes are taken for an image of its size.
pub open spec fn gives_color_texture(image: gltf::image::Data) -> bool {
    color_bytes(image) matches Some(bytes) && rgb_image_fits(
        image.width,
        image.height,
        bytes.len(),
    )
}

/// Whether `t` is the colour texture of `image` with the given factor and
/// wrap mode: it holds the colour bytes of the image at its size, maps
/// surface parameters as they are, and takes the bytes as gamma-encoded.
pub open spec fn is_color_texture_of(
    t: SpectrumImageTexture,
    image: gltf::image::Data,
    factor: Spectrum,
    wrap_mode: WrapMode,
) -> bool {
    &&& Some(rgb_texels_bytes(t.texels)) == color_bytes(image)
    &&& rgb_texels_size(t.texels) == (image.width, image.height)
    &&& t.factor == factor
    &&& t.wrap_mode == wrap_mode
    &&& t.mapping == UVMap::identity()
    &&& t.gamma
}

/// The colour texture of a material, if its image gives one.
pub fn color_texture_from_gltf(
    texture: &TextureInfo,
    factor: Spectrum,
    images: &Vec<gltf::image::Data>,
) -> (res: Option<SpectrumImageTexture>)
    requires
        texture.readable(images@),
    ensures
        res.is_some() == gives_color_texture(images@[texture.source as int]),
        res matches Some(t) ==> is_color_texture_of(
            t,
            images@[texture.source as int],
            factor,
            wrap_mode_of(texture.wrap_s),
        ),
{
    let image = &images[texture.source];
    let wrap_mode = wrap_mode_from_gtlf(texture.wrap_s);
    match image.format {
        gltf::image::Format::R8G8B8 => {
            if let Some(texels) = RgbTexels::from_raw(
                image.width,
                image.height,
                image.pixels.clone(),
            ) {
                Some(
                    SpectrumImageTexture {
                        texels,
                        factor,
                        wrap_mode,
                        mapping: UVMap::unit(),
                        gamma: true,
                    },
                )
            } else {
                None
            }
        },
        gltf::image::Format::R8G8B8A8 => {
            if let Some(texels) = RgbTexels::from_raw(
                image.width,
                image.height,
                strip_alpha(&image.pixels),
            ) {
                Some(
                    SpectrumImageTexture {
                        texels,
                        factor,
                        wrap_mode,
                        mapping: UVMap::unit(),
                        gamma: true,
                    },
                )
            } else {
                None
            }
        },
        _ => None,
    }
}

/// The number of bytes per pixel of an image from which single channels
/// can be taken; `None` for any other format.
pub open spec fn channel_stride(image: gltf::image::Data) -> Option<nat> {
    match image.format {
        gltf::image::Format::R8G8B8 => Some(3nat),
        gltf::image::Format::R8G8B8A8 => Some(4nat),
        _ => None,
    }
}

/// Whether the channel of `image` that starts at byte `first` has a byte
/// for each pixel, or the image has no channels to take.
pub open spec fn channel_fits(image: gltf::image::Data, first: nat) -> bool {
    channel_stride(image) matches Some(k) ==> image.width * image.height <= strided(
        image.pixels@,
        first,
        k,
    ).len()
}

/// Whether the channel of `image` that starts at byte `first` has a byte
/// for each pixel, or the image has no channels to take.
pub fn has_channel(image: &gltf::image::Data, first: usize) -> (r: bool)
    ensures
        r == channel_fits(*image, first as nat),
{
    let stride: usize = match image.format {
        gltf::image::Format::R8G8B8 => 3,
        gltf::image::Format::R8G8B8A8 => 4,
        _ => {
            return true;
        },
    };
    let bytes: usize = channel(&image.pixels, first, stride).len();
    proof {
        assert(image.width * image.height <= 0xffff_ffff * 0xffff_ffff) by (nonlinear_arith)
            requires
                0 <= image.width <= 0xffff_ffff,
                0 <= image.height <= 0xffff_ffff,
        ;
    }
    (image.width as u128) * (image.height as u128) <= bytes as u128
}

/// Whether `t` is the texture of the channel of `image` that starts at
/// byte `first`, with the given factor and wrap mode.
pub open spec fn is_channel_texture_of(
    t: ScalarImageTexture,
    image: gltf::image::Data,
    first: nat,
    factor: Scalar,
    wrap_mode: WrapMode,
) -> bool {
    &&& channel_stride(image) matches Some(k) && gray_texels_bytes(t.texels) == strided(
        image.pixels@,
        first,
        k,
    )
    &&& gray_texels_size(t.texels) == (image.width, image.height)
    &&& t.factor == factor
    &&& t.wrap_mode == wrap_mode
    &&& t.mapping == UVMap::identity()
}

/// The texture of one channel of an image that has three or four bytes
/// per pixel.
fn channel_texture(
    image: &gltf::image::Data,
    first: usize,
    stride: usize,
    factor: Scalar,
    wrap_mode: WrapMode,
) -> (res: Option<ScalarImageTexture>)
    requires
        channel_stride(*image) == Some(stride as nat),
    ensures
        res.is_some() == channel_fits(*image, first as nat),
        res matches Some(t) ==> is_channel_texture_of(t, *image, first as nat, factor, wrap_mode),
{
    match GrayTexels::from_raw(image.width, image.height, channel(&image.pixels, first, stride)) {
        Some(texels) => Some(
            ScalarImageTexture { texels, factor, wrap_mode, mapping: UVMap::unit() },
        ),
        None => None,
    }
}

/// The metalness and roughness textures of a material: the blue and the
/// green channel of its image. `None` for an image without such channels.
/// The blue channel, the shorter of the two, must have a byte for each
/// pixel of the image.
pub fn metallic_roughness_texture_from_gltf(
    texture: &TextureInfo,
    metallic_factor: Scalar,
    roughness_factor: Scalar,
    images: &Vec<gltf::image::Data>,
) -> (res: Option<(ScalarImageTexture, ScalarImageTexture)>)
    requires
        texture.readable(images@),
        channel_fits(images@[texture.source as int], 2),
    ensures
        res.is_some() == channel_stride(images@[texture.source as int]).is_some(),
        res matches Some((metallic, roughness)) ==> {
            &&& is_channel_texture_of(
                metallic,
                images@[texture.source as int],
                2,
                metallic_factor,
                wrap_mode_of(texture.wrap_s),
            )
            &&& is_channel_texture_of(
                roughness,
                images@[texture.source as int],
                1,
                roughness_factor,
                wrap_mode_of(texture.wrap_s),
            )
        },
{
    let image = &images[texture.source];
    let wrap_mode = wrap_mode_from_gtlf(texture.wrap_s);
    let stride: usize = match image.format {
        gltf::image::Format::R8G8B8 => 3,
        gltf::image::Format::R8G8B8A8 => 4,
        _ => {
            return None;
        },
    };
    proof {
        later_channel_is_no_longer(image.pixels@, 1, 2, stride as nat);
    }
    let metallic = channel_texture(image, 2, stride, metallic_factor, wrap_mode);
    let roughness = channel_texture(image, 1, stride, roughness_factor, wrap_mode);
    match (metallic, roughness) {
        (Some(m), Some(r)) => Some((m, r)),
        _ => None,
    }
}

/// The encoding of 1.5, the index of refraction of a material that names
/// none.
pub const DEFAULT_IOR_BITS: u32 = 0x3fc0_0000;

/// The encoding of 1.33, the index of refraction of a blended material.
pub const BLEND_IOR_BITS: u32 = 0x3faa_3d71;

/// The material of a primitive that names none: white and diffuse.
pub fn default_material() -> (m: Material)
    ensures
        m == Material::Matte(MatteMaterial { kd: SpectrumTexture::Constant(white()) }),
{
    let color_factor = Spectrum::new(Scalar::one());
    Material::Matte(MatteMaterial::new(SpectrumTexture::Constant(color_factor)))
}

/// What a material says of its normal texture.
#[derive(Clone, Copy, Debug)]
pub struct NormalTextureInfo {
    pub texture: TextureInfo,
    pub scale: Scalar,
}

/// What the host read of a material.
#[derive(Clone, Copy, Debug)]
pub struct MaterialInfo {
    /// The base colour, from the first three components of the base colour
    /// factor.
    pub color_factor: Spectrum,
    /// The fourth component of the base colour factor.
    pub alpha: Scalar,
    /// White less `alpha` times the base colour: what a blended material
    /// lets through.
    pub blend_transmit: Spectrum,
    pub base_color_texture: Option<TextureInfo>,
    pub normal_texture: Option<NormalTextureInfo>,
    /// The transmission factor, where the material has one.
    pub transmission_factor: Option<Scalar>,
    /// The index of refraction, where the material names one.
    pub ior: Option<Scalar>,
    pub alpha_mode: gltf::material::AlphaMode,
    pub metallic_factor: Scalar,
    pub roughness_factor: Scalar,
    pub metallic_roughness_texture: Option<TextureInfo>,
}

/// What an imported material becomes.
#[derive(Clone, Copy, Debug, PartialEq, Eq, Structural)]
pub enum MaterialClass {
    /// Glass that lets all light through.
    ClearGlass,
    /// Glass that stands for a blended, partly transparent surface.
    BlendedGlass,
    /// A perfect mirror.
    Mirror,
    /// A principled surface.
    Principled,
}

impl MaterialInfo {
    /// The class of the material. A transmission factor of 1 makes clear
    /// glass; otherwise blending with an alpha below 1 makes blended glass;
    /// otherwise metalness 1 with roughness 0 makes a mirror; everything
    /// else is a principled surface.
    pub open spec fn class(self) -> MaterialClass {
        if self.transmission_factor matches Some(f) && f.equals(Scalar { bits: ONE_BITS }) {
            MaterialClass::ClearGlass
        } else if self.alpha_mode == gltf::material::AlphaMode::Blend && self.alpha.less(
            Scalar { bits: ONE_BITS },
        ) {
            MaterialClass::BlendedGlass
        } else if self.metallic_factor.equals(Scalar { bits: ONE_BITS })
            && self.roughness_factor.equals(Scalar { bits: 0 }) {
            MaterialClass::Mirror
        } else {
            MaterialClass::Principled
        }
    }

    /// The index of refraction of the material: the one it names, or 1.5.
    pub open spec fn index(self) -> Scalar {
        match self.ior {
            Some(index) => index,
            None => Scalar { bits: DEFAULT_IOR_BITS },
        }
    }

    /// Whether the textures of the material that the import reads can be
    /// read: those of the base colour and of the normals always; that of
    /// metalness and roughness where the material is a principled surface.
    /// The bytes of the image of the normals must be taken for an RGB image
    /// of its size, and that of metalness and roughness must hold a byte of
    /// its blue channel for each pixel.
    pub open spec fn readable(self, images: Seq<gltf::image::Data>) -> bool {
        &&& self.base_color_texture matches Some(t) ==> t.readable(images)
        &&& self.normal_texture matches Some(n) ==> n.texture.readable(images) && rgb_image_fits(
            images[n.texture.source as int].width,
            images[n.texture.source as int].height,
            images[n.texture.source as int].pixels@.len(),
        )
        &&& (self.class() == MaterialClass::Principled
            && self.metallic_roughness_texture is Some) ==> {
            let t = self.metallic_roughness_texture->Some_0;
            &&& t.readable(images)
            &&& channel_fits(images[t.source as int], 2)
        }
    }

    /// Whether the material keeps its normal map: every class but the
    /// mirror does.
    pub open spec fn keeps_normal_map(self) -> bool {
        self.class() != MaterialClass::Mirror && self.normal_texture is Some
    }

    /// Whether the material takes its colour from an image.
    pub open spec fn keeps_color_image(self, images: Seq<gltf::image::Data>) -> bool {
        &&& self.class() == MaterialClass::Principled
        &&& self.base_color_texture matches Some(t) && gives_color_texture(
            images[t.source as int],
        )
    }

    /// Whether the material takes metalness and roughness from an image.
    pub open spec fn keeps_channel_images(self, images: Seq<gltf::image::Data>) -> bool {
        &&& self.class() == MaterialClass::Principled
        &&& self.metallic_roughness_texture matches Some(t) && channel_stride(
            images[t.source as int],
        ) is Some
    }

    /// The material that the import makes of this one when the arena
    /// holds the given numbers of colour images, single-channel images and
    /// normal maps: the textures that it keeps take the next slots.
    pub open spec fn material_in(
        self,
        images: Seq<gltf::image::Data>,
        spectra: nat,
        scalars: nat,
        normals: nat,
    ) -> Material {
        imported_material(
            self,
            if self.keeps_color_image(images) {
                SpectrumTexture::Image(spectra as usize)
            } else {
                SpectrumTexture::Constant(self.color_factor)
            },
            if self.keeps_channel_images(images) {
                ScalarTexture::Image(scalars as usize)
            } else {
                ScalarTexture::Constant(self.metallic_factor)
            },
            if self.keeps_channel_images(images) {
                ScalarTexture::Image((scalars + 1) as usize)
            } else {
                ScalarTexture::Constant(self.roughness_factor)
            },
            if self.keeps_normal_map() {
                Some(normals as usize)
            } else {
                None
            },
        )
    }

    /// How many colour images, single-channel images and normal maps the
    /// import of this material adds to the arena.
    pub open spec fn growth(self, images: Seq<gltf::image::Data>) -> (nat, nat, nat) {
        (
            if self.keeps_color_image(images) {
                1
            } else {
                0
            },
            if self.keeps_channel_images(images) {
                2
            } else {
                0
            },
            if self.keeps_normal_map() {
                1
            } else {
                0
            },
        )
    }

    /// Whether `material_from_gltf` may be called for this material.
    pub fn is_readable(&self, images: &Vec<gltf::image::Data>) -> (r: bool)
        ensures
            r == self.readable(images@),
    {
        if let Some(t) = &self.base_color_texture {
            if !t.is_readable(images) {
                return false;
            }
        }
        if let Some(n) = &self.normal_texture {
            if !n.texture.is_readable(images) {
                return false;
            }
            let image = &images[n.texture.source];
            if !RgbTexels::fits(image.width, image.height, image.pixels.len()) {
                return false;
            }
        }
        if let MaterialClass::Principled = self.classify() {
            if let Some(t) = &self.metallic_roughness_texture {
                if !t.is_readable(images) {
                    return false;
                }
                if !has_channel(&images[t.source], 2) {
                    return false;
                }
            }
        }
        true
    }

    pub fn classify(&self) -> (c: MaterialClass)
        ensures
            c == self.class(),
    {
        let one = Scalar::one();
        let clear = match self.transmission_factor {
            Some(f) => f.eq_value(&one),
            None => false,
        };
        let blend = match self.alpha_mode {
            gltf::material::AlphaMode::Blend => true,
            _ => false,
        };
        if clear {
            MaterialClass::ClearGlass
        } else if blend && self.alpha.lt(&one) {
            MaterialClass::BlendedGlass
        } else if self.metallic_factor.eq_value(&one) && self.roughness_factor.eq_value(
            &Scalar::zero(),
        ) {
            MaterialClass::Mirror
        } else {
            MaterialClass::Principled
        }
    }
}

/// The material behind a normal map, where there is one.
pub open spec fn with_normal_of(material: Material, normal_map: Option<usize>) -> Material {
    match normal_map {
        Some(slot) => Material::Normal(
            NormalMaterial { normal_map: slot, material: Box::new(material) },
        ),
        None => material,
    }
}

/// The material that the import makes of `info`, given the textures that
/// it found for colour, metalness and roughness, and the slot of the normal
/// map.
pub open spec fn imported_material(
    info: MaterialInfo,
    color: SpectrumTexture,
    metallic: ScalarTexture,
    roughness: ScalarTexture,
    normal_map: Option<usize>,
) -> Material {
    match info.class() {
        MaterialClass::ClearGlass => with_normal_of(
            Material::Glass(
                GlassMaterial {
                    kr: SpectrumTexture::Constant(white()),
                    kt: SpectrumTexture::Constant(white()),
                    index: ScalarTexture::Constant(info.index()),
                },
            ),
            normal_map,
        ),
        MaterialClass::BlendedGlass => with_normal_of(
            Material::Glass(
                GlassMaterial {
                    kr: SpectrumTexture::Constant(white()),
                    kt: SpectrumTexture::Constant(info.blend_transmit),
                    index: ScalarTexture::Constant(Scalar { bits: BLEND_IOR_BITS }),
                },
            ),
            normal_map,
        ),
        MaterialClass::Mirror => Material::Mirror(MirrorMaterial {  }),
        MaterialClass::Principled => with_normal_of(
            Material::Disney(
                DisneyMaterial {
                    color,
                    metallic,
                    eta: ScalarTexture::Constant(info.index()),
                    roughness,
                },
            ),
            normal_map,
        ),
    }
}

/// Whether `t` is the normal map of `image` with the given scale and wrap
/// mode: it holds the bytes of the image at its size, scales x and y alike
/// and maps surface parameters as they are.
pub open spec fn is_normal_map_of(
    t: NormalMap,
    image: gltf::image::Data,
    scale: Scalar,
    wrap_mode: WrapMode,
) -> bool {
    &&& rgb_texels_bytes(t.texels) == image.pixels@
    &&& rgb_texels_size(t.texels) == (image.width, image.height)
    &&& t.scale == (Point2 { x: scale, y: scale })
    &&& t.wrap_mode == wrap_mode
    &&& t.mapping == UVMap::identity()
}

/// Whether `after` is `before` with `n` more elements at its end.
pub open spec fn extends<T>(before: Seq<T>, after: Seq<T>, n: nat) -> bool {
    after.len() == before.len() + n && after.take(before.len() as int) == before
}

/// The normal map of a material. The bytes of its image must be taken for
/// an RGB image of its size.
fn normal_map_from_gltf(normal: &NormalTextureInfo, images: &Vec<gltf::image::Data>) -> (t:
    NormalMap)
    requires
        normal.texture.readable(images@),
        rgb_image_fits(
            images@[normal.texture.source as int].width,
            images@[normal.texture.source as int].height,
            images@[normal.texture.source as int].pixels@.len(),
        ),
    ensures
        is_normal_map_of(
            t,
            images@[normal.texture.source as int],
            normal.scale,
            wrap_mode_of(normal.texture.wrap_s),
        ),
{
    let image = &images[normal.texture.source];
    let wrap_mode = wrap_mode_from_gtlf(normal.texture.wrap_s);
    let made = RgbTexels::from_raw(image.width, image.height, image.pixels.clone());
    NormalMap {
        texels: made.unwrap(),
        scale: Point2::new(normal.scale, normal.scale),
        wrap_mode,
        mapping: UVMap::unit(),
    }
}

/// The material that an imported material becomes. The image textures
/// that the material keeps are added to the arena, each at the end of the
/// list of its kind: the colour image and the two channel images of a
/// principled surface, and the normal map of every material but a mirror.
pub fn material_from_gltf(
    info: &MaterialInfo,
    images: &Vec<gltf::image::Data>,
    arena: &mut TextureArena,
) -> (m: Material)
    requires
        info.readable(images@),
    ensures
        m == info.material_in(
            images@,
            old(arena).spectra@.len(),
            old(arena).scalars@.len(),
            old(arena).normals@.len(),
        ),
        extends(old(arena).spectra@, final(arena).spectra@, info.growth(images@).0),
        info.keeps_color_image(images@) ==> is_color_texture_of(
            final(arena).spectra@.last(),
            images@[info.base_color_texture->Some_0.source as int],
            info.color_factor,
            wrap_mode_of(info.base_color_texture->Some_0.wrap_s),
        ),
        extends(old(arena).scalars@, final(arena).scalars@, info.growth(images@).1),
        info.keeps_channel_images(images@) ==> {
            let t = info.metallic_roughness_texture->Some_0;
            let n = old(arena).scalars@.len() as int;
            &&& is_channel_texture_of(
                final(arena).scalars@[n],
                images@[t.source as int],
                2,
                info.metallic_factor,
                wrap_mode_of(t.wrap_s),
            )
            &&& is_channel_texture_of(
                final(arena).scalars@[n + 1],
                images@[t.source as int],
                1,
                info.roughness_factor,
                wrap_mode_of(t.wrap_s),
            )
        },
        extends(old(arena).normals@, final(arena).normals@, info.growth(images@).2),
        info.keeps_normal_map() ==> is_normal_map_of(
            final(arena).normals@.last(),
            images@[info.normal_texture->Some_0.texture.source as int],
            info.normal_texture->Some_0.scale,
            wrap_mode_of(info.normal_texture->Some_0.texture.wrap_s),
        ),
        m.textures_within(
            final(arena).spectra@.len(),
            final(arena).scalars@.len(),
            final(arena).normals@.len(),
        ),
        m.decorated_once(),
{
    let class = info.classify();
    let mut color_image: Option<SpectrumImageTexture> = None;
    if let Some(texture) = &info.base_color_texture {
        color_image = color_texture_from_gltf(texture, info.color_factor, images);
    }
    let mut normal_image: Option<NormalMap> = None;
    if let Some(normal) = &info.normal_texture {
        normal_image = Some(normal_map_from_gltf(normal, images));
    }
    let ior = match info.ior {
        Some(index) => index,
        None => Scalar::from_bits(DEFAULT_IOR_BITS),
    };
    let index = ScalarTexture::Constant(ior);
    let normal_map: Option<usize> = match (class, normal_image) {
        (MaterialClass::Mirror, _) => None,
        (_, Some(t)) => {
            let slot: usize = arena.normals.len();
            arena.normals.push(t);
            Some(slot)
        },
        (_, None) => None,
    };
    let m = match class {
        MaterialClass::ClearGlass => {
            let reflect_color = SpectrumTexture::Constant(Spectrum::new(Scalar::one()));
            let transmit_color = SpectrumTexture::Constant(Spectrum::new(Scalar::one()));
            with_normal(
                Material::Glass(GlassMaterial::new(reflect_color, transmit_color, index)),
                normal_map,
            )
        },
        MaterialClass::BlendedGlass => {
            let index = ScalarTexture::Constant(Scalar::from_bits(BLEND_IOR_BITS));
            let reflect_color = SpectrumTexture::Constant(Spectrum::new(Scalar::one()));
            let transmit_color = SpectrumTexture::Constant(info.blend_transmit);
            with_normal(
                Material::Glass(GlassMaterial::new(reflect_color, transmit_color, index)),
                normal_map,
            )
        },
        MaterialClass::Mirror => Material::Mirror(MirrorMaterial::new()),
        MaterialClass::Principled => {
            let color_texture = match color_image {
                Some(t) => {
                    let slot: usize = arena.spectra.len();
                    arena.spectra.push(t);
                    SpectrumTexture::Image(slot)
                },
                None => SpectrumTexture::Constant(info.color_factor),
            };
            let mut metallic_texture = ScalarTexture::Constant(info.metallic_factor);
            let mut roughness_texture = ScalarTexture::Constant(info.roughness_factor);
            if let Some(texture) = &info.metallic_roughness_texture {
                if let Some((metallic, roughness)) = metallic_roughness_texture_from_gltf(
                    texture,
                    info.metallic_factor,
                    info.roughness_factor,
                    images,
                ) {
                    let slot: usize = arena.scalars.len();
                    arena.scalars.push(metallic);
                    arena.scalars.push(roughness);
                    metallic_texture = ScalarTexture::Image(slot);
                    roughness_texture = ScalarTexture::Image(arena.scalars.len() - 1);
                }
            }
            with_normal(
                Material::Disney(
                    DisneyMaterial::new(color_texture, metallic_texture, index, roughness_texture),
                ),
                normal_map,
            )
        },
    };
    proof {
        assert(arena.spectra@.take(old(arena).spectra@.len() as int) =~= old(arena).spectra@);
        assert(arena.scalars@.take(old(arena).scalars@.len() as int) =~= old(arena).scalars@);
        assert(arena.normals@.take(old(arena).normals@.len() as int) =~= old(arena).normals@);
        reveal_with_fuel(Material::textures_within, 3);
    }
    m
}

/// The numbers of colour images, single-channel images and normal maps in
/// an arena after the import of some materials, one after the other.
pub open spec fn arena_after(
    infos: Seq<MaterialInfo>,
    images: Seq<gltf::image::Data>,
    start: (nat, nat, nat),
) -> (nat, nat, nat)
    decreases infos.len(),
{
    if infos.len() == 0 {
        start
    } else {
        let before = arena_after(infos.drop_last(), images, start);
        let more = infos.last().growth(images);
        (before.0 + more.0, before.1 + more.1, before.2 + more.2)
    }
}

/// The materials of a scene: the default material first, then what each
/// material of the document becomes, in their order. Each is imported into
/// the arena as the materials before it left it; every texture that a
/// material refers to is in the arena at the end, and no material is
/// decorated more than once.
pub fn import_materials(
    infos: &Vec<MaterialInfo>,
    images: &Vec<gltf::image::Data>,
    arena: &mut TextureArena,
) -> (materials: Vec<Material>)
    requires
        forall|i: int| 0 <= i < infos@.len() ==> (#[trigger] infos@[i]).readable(images@),
    ensures
        materials@.len() == infos@.len() + 1,
        materials@[0] == Material::Matte(MatteMaterial { kd: SpectrumTexture::Constant(white()) }),
        forall|i: int|
            0 <= i < infos@.len() ==> {
                let at = arena_after(
                    infos@.take(i),
                    images@,
                    (
                        old(arena).spectra@.len(),
                        old(arena).scalars@.len(),
                        old(arena).normals@.len(),
                    ),
                );
                #[trigger] materials@[i + 1] == infos@[i].material_in(images@, at.0, at.1, at.2)
            },
        (final(arena).spectra@.len(), final(arena).scalars@.len(), final(arena).normals@.len())
            == arena_after(
            infos@,
            images@,
            (old(arena).spectra@.len(), old(arena).scalars@.len(), old(arena).normals@.len()),
        ),
        final(arena).spectra@.take(old(arena).spectra@.len() as int) == old(arena).spectra@,
        final(arena).scalars@.take(old(arena).scalars@.len() as int) == old(arena).scalars@,
        final(arena).normals@.take(old(arena).normals@.len() as int) == old(arena).normals@,
        forall|i: int|
            0 <= i < materials@.len() ==> (#[trigger] materials@[i]).textures_within(
                final(arena).spectra@.len(),
                final(arena).scalars@.len(),
                final(arena).normals@.len(),
            ) && materials@[i].decorated_once(),
{
    let ghost start = (
        arena.spectra@.len(),
        arena.scalars@.len(),
        arena.normals@.len(),
    );
    let mut materials: Vec<Material> = Vec::new();
    materials.push(default_material());
    let mut i: usize = 0;
    while i < infos.len()
        invariant
            i <= infos@.len(),
            forall|k: int| 0 <= k < infos@.len() ==> (#[trigger] infos@[k]).readable(images@),
            start == (
                old(arena).spectra@.len(),
                old(arena).scalars@.len(),
                old(arena).normals@.len(),
            ),
            materials@.len() == i + 1,
            materials@[0] == Material::Matte(
                MatteMaterial { kd: SpectrumTexture::Constant(white()) },
            ),
            forall|k: int|
                0 <= k < i ==> {
                    let at = arena_after(infos@.take(k), images@, start);
                    #[trigger] materials@[k + 1] == infos@[k].material_in(
                        images@,
                        at.0,
                        at.1,
                        at.2,
                    )
                },
            (arena.spectra@.len(), arena.scalars@.len(), arena.normals@.len()) == arena_after(
                infos@.take(i as int),
                images@,
                start,
            ),
            arena.spectra@.take(start.0 as int) == old(arena).spectra@,
            arena.scalars@.take(start.1 as int) == old(arena).scalars@,
            arena.normals@.take(start.2 as int) == old(arena).normals@,
            start.0 <= arena.spectra@.len(),
            start.1 <= arena.scalars@.len(),
            start.2 <= arena.normals@.len(),
            forall|k: int|
                0 <= k < materials@.len() ==> (#[trigger] materials@[k]).textures_within(
                    arena.spectra@.len(),
                    arena.scalars@.len(),
                    arena.normals@.len(),
                ) && materials@[k].decorated_once(),
        decreases infos@.len() - i,
    {
        let ghost before = arena;
        let ghost earlier = materials@;
        let m = material_from_gltf(&infos[i], images, arena);
        materials.push(m);
        proof {
            assert(infos@.take(i + 1).drop_last() =~= infos@.take(i as int));
            assert(infos@.take(i + 1).last() == infos@[i as int]);
            assert(arena.spectra@.take(start.0 as int) =~= before.spectra@.take(start.0 as int));
            assert(arena.scalars@.take(start.1 as int) =~= before.scalars@.take(start.1 as int));
            assert(arena.normals@.take(start.2 as int) =~= before.normals@.take(start.2 as int));
            assert forall|k: int| 0 <= k < materials@.len() implies (
            #[trigger] materials@[k]).textures_within(
                arena.spectra@.len(),
                arena.scalars@.len(),
                arena.normals@.len(),
            ) && materials@[k].decorated_once() by {
                if k < earlier.len() {
                    assert(materials@[k] == earlier[k]);
                    textures_stay_within(
                        earlier[k],
                        before.spectra@.len(),
                        before.scalars@.len(),
                        before.normals@.len(),
                        arena.spectra@.len(),
                        arena.scalars@.len(),
                        arena.normals@.len(),
                    );
                }
            }
        }
        i = i + 1;
    }
    proof {
        assert(infos@.take(i as int) =~= infos@);
    }
    materials
}

/// What the host read of a primitive of a mesh, for its shapes.
#[derive(Clone, Copy, Debug)]
pub struct PrimitiveInfo {
    pub base_color_texture: Option<TextureInfo>,
    pub alpha_mode: gltf::material::AlphaMode,
}

impl PrimitiveInfo {
    /// Whether the primitive is cut out by the alpha channel of its
    /// colour image.
    pub open spec fn masked(self) -> bool {
        self.base_color_texture is Some && self.alpha_mode == gltf::material::AlphaMode::Mask
    }

    /// Whether the shapes of the primitive can be made: its colour
    /// texture can be read and, where it masks the primitive, has an alpha
    /// channel.
    pub open spec fn readable(self, images: Seq<gltf::image::Data>) -> bool {
        self.base_color_texture matches Some(t) ==> {
            &&& t.readable(images)
            &&& self.alpha_mode == gltf::material::AlphaMode::Mask ==> images[t.source as int].format
                == gltf::image::Format::R8G8B8A8
        }
    }

    /// Whether `shapes_from_gltf_prim` may be called for this primitive.
    pub fn is_readable(&self, images: &Vec<gltf::image::Data>) -> (r: bool)
        ensures
            r == self.readable(images@),
    {
        match &self.base_color_texture {
            Some(t) => {
                if !t.is_readable(images) {
                    return false;
                }
                match (self.alpha_mode, images[t.source].format) {
                    (gltf::material::AlphaMode::Mask, gltf::image::Format::R8G8B8A8) => true,
                    (gltf::material::AlphaMode::Mask, _) => false,
                    _ => true,
                }
            },
            None => true,
        }
    }

    /// Whether the primitive gets an alpha mask: it is masked and the
    /// alpha channel of its image has a byte for each pixel.
    pub open spec fn keeps_alpha_mask(self, images: Seq<gltf::image::Data>) -> bool {
        self.masked() && channel_fits(images[self.base_color_texture->Some_0.source as int], 3)
    }
}

/// The triangles of a primitive with the vertex indices `indices`. The
/// mesh of the primitive is added at the end of `meshes`; its faces are
/// those that the indices describe. Where the primitive is masked, the
/// alpha channel of its colour image is added to the arena as a texture
/// with factor 1 and masks the mesh.
pub fn shapes_from_gltf_prim(
    prim: &PrimitiveInfo,
    images: &Vec<gltf::image::Data>,
    indices: &Vec<u32>,
    arena: &mut TextureArena,
    meshes: &mut Vec<TriangleMesh>,
) -> (shapes: Vec<Triangle>)
    requires
        prim.readable(images@),
    ensures
        extends(old(meshes)@, final(meshes)@, 1),
        final(meshes)@.last().faces@ == faces_of(indices@),
        final(meshes)@.last().alpha_mask == if prim.keeps_alpha_mask(images@) {
            Some(old(arena).scalars@.len() as usize)
        } else {
            None
        },
        shapes@ == triangles_of(old(meshes)@.len() as usize, indices@.len() / 3),
        extends(
            old(arena).scalars@,
            final(arena).scalars@,
            if prim.keeps_alpha_mask(images@) {
                1
            } else {
                0
            },
        ),
        prim.keeps_alpha_mask(images@) ==> is_channel_texture_of(
            final(arena).scalars@.last(),
            images@[prim.base_color_texture->Some_0.source as int],
            3,
            Scalar { bits: ONE_BITS },
            wrap_mode_of(prim.base_color_texture->Some_0.wrap_s),
        ),
        final(arena).spectra == old(arena).spectra,
        final(arena).normals == old(arena).normals,
{
    let mut alpha_mask_texture: Option<usize> = None;
    if let Some(texture) = &prim.base_color_texture {
        let image = &images[texture.source];
        let wrap_mode = wrap_mode_from_gtlf(texture.wrap_s);
        match prim.alpha_mode {
            gltf::material::AlphaMode::Mask => {
                if let Some(t) = channel_texture(image, 3, 4, Scalar::one(), wrap_mode) {
                    alpha_mask_texture = Some(arena.scalars.len());
                    arena.scalars.push(t);
                }
            },
            _ => {},
        }
    }
    let world_mesh = TriangleMesh { faces: faces_from_indices(indices), alpha_mask: alpha_mask_texture };
    let place: usize = meshes.len();
    let shapes = triangles_from_mesh(&world_mesh, place);
    meshes.push(world_mesh);
    proof {
        assert(meshes@.take(old(meshes)@.len() as int) =~= old(meshes)@);
        assert(arena.scalars@.take(old(arena).scalars@.len() as int) =~= old(arena).scalars@);
    }
    shapes
}

/// The texture of the light that a primitive emits: none where the
/// emission is black; else the colour image of the emission with the
/// emission as its factor, added to the arena, where the primitive has
/// such an image and it gives a texture; else the emission itself.
pub fn emission_texture(
    emissive: Spectrum,
    texture: &Option<TextureInfo>,
    images: &Vec<gltf::image::Data>,
    arena: &mut TextureArena,
) -> (ke: Option<SpectrumTexture>)
    requires
        !emissive.black() ==> (*texture matches Some(t) ==> t.readable(images@)),
    ensures
        ke == if emissive.black() {
            None
        } else if *texture matches Some(t) && gives_color_texture(images@[t.source as int]) {
            Some(SpectrumTexture::Image(old(arena).spectra@.len() as usize))
        } else {
            Some(SpectrumTexture::Constant(emissive))
        },
        extends(
            old(arena).spectra@,
            final(arena).spectra@,
            if ke matches Some(SpectrumTexture::Image(_)) {
                1
            } else {
                0
            },
        ),
        ke matches Some(SpectrumTexture::Image(_)) ==> is_color_texture_of(
            final(arena).spectra@.last(),
            images@[texture->Some_0.source as int],
            emissive,
            wrap_mode_of(texture->Some_0.wrap_s),
        ),
        final(arena).scalars == old(arena).scalars,
        final(arena).normals == old(arena).normals,
{
    let mut ke: Option<SpectrumTexture> = None;
    if !emissive.is_black() {
        ke = Some(SpectrumTexture::Constant(emissive));
        if let Some(info) = texture {
            if let Some(t) = color_texture_from_gltf(info, emissive, images) {
                ke = Some(SpectrumTexture::Image(arena.spectra.len()));
                arena.spectra.push(t);
            }
        }
    }
    proof {
        assert(arena.spectra@.take(old(arena).spectra@.len() as int) =~= old(arena).spectra@);
    }
    ke
}

/// The number of sample points along each side of a shape at which its
/// emission is probed.
pub const SAMPLE_COUNT: usize = 10;

/// Whether a texture is not black at one of the sample points.
pub open spec fn emits_at(ke: SpectrumTexture, samples: Seq<SurfaceMediumInteraction>) -> bool {
    exists|i: int| 0 <= i < samples.len() && !(#[trigger] ke.value_at(samples[i])).black()
}

/// Whether the emission `ke` is not black at one of the points of a shape
/// that the host sampled. A point without a sample of the emission counts
/// as black.
pub fn has_emission(ke: &SpectrumTexture, samples: &Vec<SurfaceMediumInteraction>) -> (r: bool)
    ensures
        r == emits_at(*ke, samples@),
{
    let mut i: usize = 0;
    while i < samples.len()
        invariant
            i <= samples@.len(),
            forall|j: int| 0 <= j < i ==> (#[trigger] ke.value_at(samples@[j])).black(),
        decreases samples@.len() - i,
    {
        if !ke.evaluate(&samples[i]).is_black() {
            return true;
        }
        i = i + 1;
    }
    false
}

/// A shape with the points at which the host sampled it: `SAMPLE_COUNT`
/// points along each side, row by row.
pub struct ShapeSamples {
    pub shape: Triangle,
    pub samples: Vec<SurfaceMediumInteraction>,
}

/// The shapes of one primitive of a mesh, with the material that the
/// primitive names and the texture of its emission.
pub struct PrimitiveShapes {
    pub material: Option<usize>,
    pub ke: Option<SpectrumTexture>,
    pub shapes: Vec<ShapeSamples>,
}

/// What the host read of the light of a node.
pub struct LightInfo {
    pub kind: gltf::khr_lights_punctual::Kind,
    /// The colour of the light times its intensity.
    pub color: Spectrum,
    pub placement: LightPlacement,
}

/// A node of the scene: what it holds itself, and the nodes below it.
pub struct NodeInfo {
    pub primitives: Vec<PrimitiveShapes>,
    pub light: Option<LightInfo>,
    pub children: Vec<NodeInfo>,
}

/// The lights, the primitives and the lights that await preprocessing of
/// a scene that is being put together.
pub type Population = (Seq<Light>, Seq<GeometricPrimitive>, Seq<Light>);

/// The place of a primitive's material among the materials of the scene:
/// the default material comes first, the materials of the document after
/// it.
pub open spec fn material_slot(index: Option<usize>) -> int {
    match index {
        Some(i) => i + 1,
        None => 0,
    }
}

/// Whether a shape emits light: its primitive has an emission that is not
/// black at one of the sample points.
pub open spec fn shape_emits(ke: Option<SpectrumTexture>, samples: Seq<SurfaceMediumInteraction>) -> bool {
    ke matches Some(k) && emits_at(k, samples)
}

/// The lights and primitives of a scene after one more shape. A shape
/// that emits becomes an area light at the end of the lights, and its
/// primitive refers to that light.
pub open spec fn with_shape(
    st: (Seq<Light>, Seq<GeometricPrimitive>),
    material: usize,
    ke: Option<SpectrumTexture>,
    s: ShapeSamples,
) -> (Seq<Light>, Seq<GeometricPrimitive>) {
    if shape_emits(ke, s.samples@) {
        (
            st.0.push(
                Light::Area(DiffuseAreaLight { ke: ke->Some_0, shape: s.shape, num_samples: 1 }),
            ),
            st.1.push(
                GeometricPrimitive {
                    shape: s.shape,
                    material,
                    area_light: Some(st.0.len() as usize),
                },
            ),
        )
    } else {
        (st.0, st.1.push(GeometricPrimitive { shape: s.shape, material, area_light: None }))
    }
}

/// The lights and primitives of a scene after the shapes of one primitive,
/// in their order.
pub open spec fn with_shapes(
    st: (Seq<Light>, Seq<GeometricPrimitive>),
    material: usize,
    ke: Option<SpectrumTexture>,
    shapes: Seq<ShapeSamples>,
) -> (Seq<Light>, Seq<GeometricPrimitive>)
    decreases shapes.len(),
{
    if shapes.len() == 0 {
        st
    } else {
        with_shape(with_shapes(st, material, ke, shapes.drop_last()), material, ke, shapes.last())
    }
}

/// The lights and primitives of a scene after the primitives of one node,
/// in their order.
pub open spec fn with_primitives(
    st: (Seq<Light>, Seq<GeometricPrimitive>),
    prims: Seq<PrimitiveShapes>,
) -> (Seq<Light>, Seq<GeometricPrimitive>)
    decreases prims.len(),
{
    if prims.len() == 0 {
        st
    } else {
        with_shapes(
            with_primitives(st, prims.drop_last()),
            material_slot(prims.last().material) as usize,
            prims.last().ke,
            prims.last().shapes@,
        )
    }
}

/// Whether the primitives of a node can be added to a scene with
/// `materials` materials: each names a material that the scene has.
pub open spec fn primitives_fit(prims: Seq<PrimitiveShapes>, materials: nat) -> bool {
    forall|i: int| 0 <= i < prims.len() ==> primitive_fits(#[trigger] prims[i], materials)
}

/// Whether a primitive can be added to a scene with `materials`
/// materials: it names a material that the scene has.
pub open spec fn primitive_fits(prim: PrimitiveShapes, materials: nat) -> bool {
    material_slot(prim.material) < materials
}

impl PrimitiveShapes {
    /// Whether the primitive can be added to a scene with `materials`
    /// materials.
    pub fn fits(&self, materials: usize) -> (r: bool)
        ensures
            r == primitive_fits(*self, materials as nat),
    {
        match self.material {
            Some(idx) => materials > 0 && idx < materials - 1,
            None => materials > 0,
        }
    }
}

/// Whether a node and all nodes below it can be added to a scene with
/// `materials` materials: each primitive names a material that the scene
/// has.
pub open spec fn tree_fits(node: NodeInfo, materials: nat) -> bool
    decreases node,
{
    &&& primitives_fit(node.primitives@, materials)
    &&& forall|i: int|
        0 <= i < node.children@.len() ==> tree_fits(#[trigger] node.children@[i], materials)
}

impl NodeInfo {
    /// Whether `populate_scene` may be called for this node and a scene
    /// with `materials` materials.
    pub fn fits(&self, materials: usize) -> (r: bool)
        ensures
            r == tree_fits(*self, materials as nat),
        decreases self,
    {
        let mut i: usize = 0;
        while i < self.primitives.len()
            invariant
                i <= self.primitives@.len(),
                forall|k: int|
                    0 <= k < i ==> primitive_fits(#[trigger] self.primitives@[k], materials as nat),
            decreases self.primitives@.len() - i,
        {
            if !self.primitives[i].fits(materials) {
                assert(!primitive_fits(self.primitives@[i as int], materials as nat));
                return false;
            }
            i = i + 1;
        }
        let mut c: usize = 0;
        while c < self.children.len()
            invariant
                c <= self.children@.len(),
                primitives_fit(self.primitives@, materials as nat),
                forall|k: int|
                    0 <= k < c ==> tree_fits(#[trigger] self.children@[k], materials as nat),
            decreases self.children@.len() - c,
        {
            if !self.children[c].fits(materials) {
                assert(!tree_fits(self.children@[c as int], materials as nat));
                return false;
            }
            c = c + 1;
        }
        true
    }
}

/// The scene after what a node holds itself: its primitives, then its
/// light. A directional light joins the lights that await preprocessing, a
/// point or spot light the lights.
pub open spec fn with_own(st: Population, node: NodeInfo) -> Population {
    let sp = with_primitives((st.0, st.1), node.primitives@);
    match node.light {
        Some(info) => {
            let light = Light::imported(info.kind, info.color, info.placement);
            if light is Directional {
                (sp.0, sp.1, st.2.push(light))
            } else {
                (sp.0.push(light), sp.1, st.2)
            }
        },
        None => (sp.0, sp.1, st.2),
    }
}

/// The scene after what a node holds itself and after the first `k` of
/// the nodes below it, each with all that is below it in turn.
pub open spec fn with_node_upto(st: Population, node: NodeInfo, k: nat) -> Population
    decreases node, k,
{
    if k == 0 {
        with_own(st, node)
    } else if k <= node.children@.len() {
        with_node(with_node_upto(st, node, (k - 1) as nat), node.children@[k - 1])
    } else {
        with_node_upto(st, node, node.children@.len())
    }
}

/// The scene after a node and all nodes below it: the node itself first,
/// then its children in their order, each followed by its own children.
pub open spec fn with_node(st: Population, node: NodeInfo) -> Population
    decreases node, node.children@.len() + 1,
{
    with_node_upto(st, node, node.children@.len())
}

/// Adds what one node holds itself to the scene.
fn populate_own(
    node: &NodeInfo,
    materials: &Vec<Material>,
    primitives: &mut Vec<GeometricPrimitive>,
    lights: &mut Vec<Light>,
    preprocess_lights: &mut Vec<Light>,
)
    requires
        primitives_fit(node.primitives@, materials@.len()),
    ensures
        (final(lights)@, final(primitives)@, final(preprocess_lights)@) == with_own(
            (old(lights)@, old(primitives)@, old(preprocess_lights)@),
            *node,
        ),
        primitives_refer(old(primitives)@, old(lights)@, materials@.len()) ==> primitives_refer(
            final(primitives)@,
            final(lights)@,
            materials@.len(),
        ),
{
    let n_materials: usize = materials.len();
    let mut i: usize = 0;
    while i < node.primitives.len()
        invariant
            i <= node.primitives@.len(),
            materials@.len() == n_materials,
            primitives_fit(node.primitives@, materials@.len()),
            (lights@, primitives@) == with_primitives(
                (old(lights)@, old(primitives)@),
                node.primitives@.take(i as int),
            ),
            preprocess_lights@ == old(preprocess_lights)@,
            primitives_refer(old(primitives)@, old(lights)@, materials@.len())
                ==> primitives_refer(primitives@, lights@, materials@.len()),
        decreases node.primitives@.len() - i,
    {
        let prim = &node.primitives[i];
        assert(material_slot(node.primitives@[i as int].material) < materials@.len());
        let material: usize = match prim.material {
            Some(idx) => idx + 1,
            None => 0,
        };
        let ghost before = (lights@, primitives@);
        let mut j: usize = 0;
        while j < prim.shapes.len()
            invariant
                j <= prim.shapes@.len(),
                i < node.primitives@.len(),
                *prim == node.primitives@[i as int],
                primitives_fit(node.primitives@, materials@.len()),
                material == material_slot(prim.material),
                (lights@, primitives@) == with_shapes(
                    before,
                    material,
                    prim.ke,
                    prim.shapes@.take(j as int),
                ),
                preprocess_lights@ == old(preprocess_lights)@,
                materials@.len() == n_materials,
                material < n_materials,
                primitives_refer(old(primitives)@, old(lights)@, materials@.len())
                    ==> primitives_refer(primitives@, lights@, materials@.len()),
            decreases prim.shapes@.len() - j,
        {
            let shape = &prim.shapes[j];
            let ghost lights_before = lights@;
            let ghost primitives_before = primitives@;
            let mut some_area_light: Option<usize> = None;
            if let Some(ke) = &prim.ke {
                if has_emission(ke, &shape.samples) {
                    let area_light = DiffuseAreaLight::new(*ke, shape.shape, 1);
                    some_area_light = Some(lights.len());
                    lights.push(Light::Area(area_light));
                }
            }
            primitives.push(
                GeometricPrimitive { shape: shape.shape, material, area_light: some_area_light },
            );
            proof {
                assert(prim.shapes@.take(j + 1).drop_last() =~= prim.shapes@.take(j as int));
                assert(prim.shapes@.take(j + 1).last() == prim.shapes@[j as int]);
                if primitives_refer(primitives_before, lights_before, materials@.len()) {
                    assert forall|k: int| 0 <= k < primitives@.len() implies {
                        &&& (#[trigger] primitives@[k]).material < materials@.len()
                        &&& primitives@[k].area_light matches Some(l) ==> l < lights@.len() && (
                        lights@[l as int] matches Light::Area(a) && a.shape
                            == primitives@[k].shape)
                    } by {
                        if k < primitives_before.len() {
                            assert(primitives@[k] == primitives_before[k]);
                            if let Some(l) = primitives_before[k].area_light {
                                assert(lights@[l as int] == lights_before[l as int]);
                            }
                        }
                    }
                }
            }
            j = j + 1;
        }
        proof {
            assert(prim.shapes@.take(j as int) =~= prim.shapes@);
            assert(node.primitives@.take(i + 1).drop_last() =~= node.primitives@.take(i as int));
            assert(node.primitives@.take(i + 1).last() == node.primitives@[i as int]);
        }
        i = i + 1;
    }
    proof {
        assert(node.primitives@.take(i as int) =~= node.primitives@);
    }
    if let Some(info) = &node.light {
        let light = Light::from_gltf(&info.kind, info.color, &info.placement);
        match light {
            Light::Directional(_) => {
                preprocess_lights.push(light);
            },
            _ => {
                let ghost lights_before = lights@;
                lights.push(light);
                proof {
                    if primitives_refer(primitives@, lights_before, materials@.len()) {
                        primitives_refer_on(
                            primitives@,
                            lights_before,
                            materials@.len() as nat,
                            seq![light],
                            materials@.len() as nat,
                        );
                        assert(lights@ =~= lights_before + seq![light]);
                    }
                }
            },
        }
    }
}

/// Adds a node and all nodes below it to the scene: first what the node
/// holds itself, then its children in their order, each followed by its
/// own children. Each shape of each primitive becomes a primitive with
/// the material of its primitive, and a shape that emits becomes an area
/// light as well. The light of a node, if it has one, is added after its
/// primitives: a directional light to the lights that await preprocessing,
/// a point or spot light to the lights. Primitives that referred to their
/// materials and lights still do.
pub fn populate_scene(
    node: &NodeInfo,
    materials: &Vec<Material>,
    primitives: &mut Vec<GeometricPrimitive>,
    lights: &mut Vec<Light>,
    preprocess_lights: &mut Vec<Light>,
)
    requires
        tree_fits(*node, materials@.len()),
    ensures
        (final(lights)@, final(primitives)@, final(preprocess_lights)@) == with_node(
            (old(lights)@, old(primitives)@, old(preprocess_lights)@),
            *node,
        ),
        primitives_refer(old(primitives)@, old(lights)@, materials@.len()) ==> primitives_refer(
            final(primitives)@,
            final(lights)@,
            materials@.len(),
        ),
    decreases node,
{
    let ghost start = (lights@, primitives@, preprocess_lights@);
    populate_own(node, materials, primitives, lights, preprocess_lights);
    let mut c: usize = 0;
    while c < node.children.len()
        invariant
            c <= node.children@.len(),
            tree_fits(*node, materials@.len()),
            (lights@, primitives@, preprocess_lights@) == with_node_upto(start, *node, c as nat),
            primitives_refer(start.1, start.0, materials@.len()) ==> primitives_refer(
                primitives@,
                lights@,
                materials@.len(),
            ),
        decreases node.children@.len() - c,
    {
        assert(tree_fits(node.children@[c as int], materials@.len()));
        populate_scene(&node.children[c], materials, primitives, lights, preprocess_lights);
        c = c + 1;
    }
}

/// The lights that await preprocessing when a scene is put together:
/// those of the document, and after them the light of the environment
/// where the scene is to have the default lights.
pub open spec fn pending_lights(preprocess_lights: Seq<Light>, default_lights: bool) -> Seq<Light> {
    if default_lights {
        preprocess_lights.push(Light::Infinite(InfiniteAreaLight { scale: white(), world: None }))
    } else {
        preprocess_lights
    }
}

impl RenderScene {
    /// Puts a scene together once its primitives are known and the
    /// accelerator over them is built. Each light that awaited preprocessing
    /// is told the sphere `world` around the scene and joins the lights
    /// after those that were there; those of them that surround the scene
    /// are listed as the infinite lights as well, in the same order.
    /// Primitives that referred to their materials and lights still do.
    pub fn from_gltf(
        extent: Extent,
        world: Sphere,
        materials: Vec<Material>,
        primitives: Vec<GeometricPrimitive>,
        meshes: Vec<TriangleMesh>,
        lights: Vec<Light>,
        preprocess_lights: Vec<Light>,
        textures: TextureArena,
        default_lights: bool,
    ) -> (scene: RenderScene)
        ensures
            scene.lights@ == lights@ + pending_lights(preprocess_lights@, default_lights).map_values(
                |l: Light| l.preprocessed_with(world),
            ),
            scene.infinite_lights@ == pending_lights(
                preprocess_lights@,
                default_lights,
            ).map_values(|l: Light| l.preprocessed_with(world)).filter(
                |l: Light| l.flag_set().contains(LightFlag::Infinite),
            ),
            scene.extent == extent,
            scene.materials == materials,
            scene.primitives == primitives,
            scene.meshes == meshes,
            scene.textures == textures,
            primitives_refer(primitives@, lights@, materials@.len()) ==> primitives_refer(
                scene.primitives@,
                scene.lights@,
                scene.materials@.len(),
            ),
    {
        let mut lights = lights;
        let mut preprocess_lights = preprocess_lights;
        let mut infinite_lights: Vec<Light> = Vec::new();
        if default_lights {
            let default_env_light = InfiniteAreaLight::new(Spectrum::new(Scalar::one()));
            preprocess_lights.push(Light::Infinite(default_env_light));
        }
        let ghost first = lights@;
        let ghost told = preprocess_lights@.map_values(|l: Light| l.preprocessed_with(world));
        let ghost surrounds = |l: Light| l.flag_set().contains(LightFlag::Infinite);
        let mut i: usize = 0;
        proof {
            reveal(Seq::filter);
            assert(told.take(0).filter(surrounds) =~= Seq::<Light>::empty());
        }
        while i < preprocess_lights.len()
            invariant
                i <= preprocess_lights@.len(),
                told == preprocess_lights@.map_values(|l: Light| l.preprocessed_with(world)),
                surrounds == |l: Light| l.flag_set().contains(LightFlag::Infinite),
                lights@ == first + told.take(i as int),
                infinite_lights@ == told.take(i as int).filter(surrounds),
            decreases preprocess_lights@.len() - i,
        {
            let mut light = preprocess_lights[i];
            light.preprocess(world);
            lights.push(light);
            let infinite = light.flags().contains(LightFlags::single(LightFlag::Infinite));
            if infinite {
                infinite_lights.push(light);
            }
            proof {
                reveal(Seq::filter);
                assert(told.take(i + 1).drop_last() =~= told.take(i as int));
                assert(told.take(i + 1).last() == light);
                assert(first + told.take(i + 1) =~= (first + told.take(i as int)).push(light));
                assert(infinite == surrounds(light));
            }
            i = i + 1;
        }
        proof {
            assert(told.take(i as int) =~= told);
            if primitives_refer(primitives@, first, materials@.len()) {
                primitives_refer_on(
                    primitives@,
                    first,
                    materials@.len() as nat,
                    told,
                    materials@.len() as nat,
                );
            }
        }
        RenderScene { extent, lights, infinite_lights, meshes, primitives, materials, textures }
    }
}

} // verus!
