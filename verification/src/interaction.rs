//! Points at which light is scattered or emitted.

use crate::bsdf::BSDF;
use crate::geometry::Point2;
use crate::geometry::Point3;
use crate::geometry::Vector3;
use crate::scalar::Scalar;
use crate::spectrum::Spectrum;
use vstd::prelude::*;

verus! {

/// A point in space and time, with the direction towards the viewer and the
/// normal where it lies on a surface.
#[derive(Clone, Copy, Debug, PartialEq, Eq, Structural)]
pub struct Interaction {
    pub p: Point3,
    pub time: Scalar,
    pub p_error: Vector3,
    pub wo: Vector3,
    pub n: Vector3,
}

impl Interaction {
    /// The interaction at `p` and `time` with every other part zero.
    pub open spec fn bare(p: Point3, time: Scalar) -> Interaction {
        let zero = Vector3 { x: Scalar { bits: 0 }, y: Scalar { bits: 0 }, z: Scalar { bits: 0 } };
        Interaction { p, time, p_error: zero, wo: zero, n: zero }
    }

    /// The interaction at `p` and `time` with every other part zero.
    pub fn at(p: Point3, time: Scalar) -> (it: Interaction)
        ensures
            it == Interaction::bare(p, time),
    {
        Interaction { p, time, p_error: Vector3::zero(), wo: Vector3::zero(), n: Vector3::zero() }
    }
}

impl Default for Interaction {
    /// The interaction at the origin at time zero.
    fn default() -> (it: Interaction)
        ensures
            it == Interaction::bare(
                Point3 { x: Scalar { bits: 0 }, y: Scalar { bits: 0 }, z: Scalar { bits: 0 } },
                Scalar { bits: 0 },
            ),
    {
        Interaction::at(Point3::origin(), Scalar::zero())
    }
}

/// The frame in which a surface point is shaded: the shading normal and the
/// two tangents.
#[derive(Clone, Copy, Debug, PartialEq, Eq, Structural)]
pub struct Shading {
    pub n: Vector3,
    pub dpdu: Vector3,
    pub dpdv: Vector3,
}

/// What a normal map gives at a surface point, as the host solved it: the
/// new shading normal `ns`, the squared length of the cross product of the
/// old first tangent with `ns`, and two candidate pairs of tangents. The
/// aligned pair keeps the direction of the old tangent and exists only
/// where the cross product is not zero; the arbitrary pair is any
/// orthonormal completion of `ns`.
#[derive(Clone, Copy, Debug, PartialEq, Eq, Structural)]
pub struct PerturbedFrame {
    pub ns: Vector3,
    pub cross_norm_squared: Scalar,
    pub aligned_ss: Vector3,
    pub aligned_ts: Vector3,
    pub arbitrary_ss: Vector3,
    pub arbitrary_ts: Vector3,
}

/// The values that the image textures of the scene take at one surface
/// point, by kind and slot.
#[derive(Clone, Debug)]
pub struct TextureSamples {
    pub spectra: Vec<Spectrum>,
    pub scalars: Vec<Scalar>,
    pub frames: Vec<PerturbedFrame>,
}

impl TextureSamples {
    /// No samples.
    pub fn new() -> (t: TextureSamples)
        ensures
            t.spectra@.len() == 0,
            t.scalars@.len() == 0,
            t.frames@.len() == 0,
    {
        TextureSamples { spectra: Vec::new(), scalars: Vec::new(), frames: Vec::new() }
    }
}

/// A point on a surface, with what shading needs there.
#[derive(Clone, Debug)]
pub struct SurfaceMediumInteraction {
    pub p: Point3,
    pub time: Scalar,
    pub wo: Vector3,
    /// The geometric normal.
    pub n: Vector3,
    pub uv: Point2,
    pub dpdu: Vector3,
    pub dpdv: Vector3,
    pub shading: Shading,
    /// The scattering at this point, once a material has computed it.
    pub bsdf: Option<BSDF>,
    pub texels: TextureSamples,
}

impl SurfaceMediumInteraction {
    /// Whether two interactions agree in everything but the shading frame
    /// and the scattering.
    pub open spec fn same_surface_point(self, other: SurfaceMediumInteraction) -> bool {
        &&& self.p == other.p
        &&& self.time == other.time
        &&& self.wo == other.wo
        &&& self.n == other.n
        &&& self.uv == other.uv
        &&& self.dpdu == other.dpdu
        &&& self.dpdv == other.dpdv
        &&& self.texels == other.texels
    }
}

} // verus!
