//! Lights, and the visibility test between a light and a shaded point.
//!
//! A light that depends on the extent of the scene is made first and
//! preprocessed once, when the whole scene is known; only then may its
//! power be asked for.

use crate::flags::LightFlag;
use crate::flags::LightFlags;
use crate::geometry::Point2;
use crate::geometry::Point3;
use crate::geometry::Sphere;
use crate::geometry::Vector3;
use crate::interaction::Interaction;
use crate::scalar::Scalar;
use crate::scalar::ONE_BITS;
use crate::shape::Triangle;
use crate::spectrum::Spectrum;
use crate::texture::SpectrumTexture;
use vstd::prelude::*;

verus! {

/// A deferred test whether the straight segment between two points is free.
#[derive(Clone, Copy, Debug, PartialEq, Eq, Structural)]
pub struct VisibilityTester {
    pub p0: Interaction,
    pub p1: Interaction,
}

impl VisibilityTester {
    pub fn new(p0: Interaction, p1: Interaction) -> (v: VisibilityTester)
        ensures
            v == (VisibilityTester { p0, p1 }),
    {
        VisibilityTester { p0, p1 }
    }

    /// Whether the segment is free, given whether the scene reports an
    /// intersection along the shadow ray from `p0` to `p1`.
    pub fn unoccluded(&self, intersects: bool) -> (free: bool)
        ensures
            free == !intersects,
    {
        !intersects
    }
}

/// The direction from which light arrives at a point.
#[derive(Clone, Copy, Debug, PartialEq, Eq, Structural)]
pub enum Incidence {
    /// The unit vector from the point towards the given position; the
    /// zero vector where the distance between the two is zero.
    Toward(Point3),
    /// The given vector itself.
    Along(Vector3),
}

/// The visibility test that goes with a light sample.
#[derive(Clone, Copy, Debug, PartialEq, Eq, Structural)]
pub enum Shadow {
    /// Between two points.
    Between(VisibilityTester),
    /// From a point out of the scene: the far end lies at
    /// `from.p + along * (2 * radius)`, at the time of `from`.
    Outward { from: Interaction, along: Vector3, radius: Scalar },
}

/// The radiance that arrives from a light sample.
#[derive(Clone, Copy, Debug, PartialEq, Eq, Structural)]
pub enum Radiance {
    /// The intensity divided by the squared distance between two points.
    /// A squared distance of zero means no contribution: the radiance is
    /// black there, and nothing is divided.
    InverseSquare { intensity: Spectrum, from: Point3, to: Point3 },
    /// The same radiance at every point.
    Constant(Spectrum),
}

/// The power that a light emits in total.
#[derive(Clone, Copy, Debug, PartialEq, Eq, Structural)]
pub enum Power {
    /// The intensity times `4 * pi`.
    Isotropic(Spectrum),
    /// The radiance times `pi * radius * radius`, the area of the disk that
    /// covers the scene.
    Disk { radiance: Spectrum, radius: Scalar },
}

/// What a light offers.
pub trait LightInterface: Sized {
    /// The properties of the light.
    spec fn flag_set(&self) -> Set<LightFlag>;

    /// Whether the light may be sampled and asked for its power.
    spec fn usable(&self) -> bool;

    /// What sampling the light at `reference` gives, for a light that may
    /// be sampled: the direction, the visibility test and the radiance.
    spec fn sample_of(&self, reference: Interaction) -> Option<(Incidence, Shadow, Radiance)>;

    /// The power of the light, for a light that may be asked for it.
    spec fn power_of(&self) -> Option<Power>;

    /// The light once it has been told the sphere around the scene.
    spec fn preprocessed_with(&self, world: Sphere) -> Self;

    /// The properties of the light.
    fn flags(&self) -> (f: LightFlags)
        ensures
            f@ == self.flag_set(),
    ;

    /// The radiance that the light adds to a ray that leaves the scene:
    /// none.
    fn le(&self) -> (s: Spectrum)
        ensures
            s == (Spectrum { r: Scalar { bits: 0 }, g: Scalar { bits: 0 }, b: Scalar { bits: 0 } }),
    ;

    /// The light that arrives at `reference`. Nothing is left to chance:
    /// whatever `u` is, the weight is 1, and direction, visibility test and
    /// radiance are those of the light.
    fn sample_li(
        &self,
        reference: &Interaction,
        u: &Point2,
        wi: &mut Incidence,
        pdf: &mut Scalar,
        vis: &mut Option<Shadow>,
    ) -> (li: Radiance)
        requires
            self.usable(),
        ensures
            final(pdf).bits == ONE_BITS,
            *final(vis) matches Some(shadow) && self.sample_of(*reference) == Some(
                (*final(wi), shadow, li),
            ),
    ;

    /// The power that the light emits in total.
    fn power(&self) -> (p: Power)
        requires
            self.usable(),
        ensures
            self.power_of() == Some(p),
    ;

    /// Tells the light the sphere around the scene. Lights that depend on
    /// the extent of the scene store it, the others ignore it.
    fn preprocess(&mut self, world: Sphere)
        ensures
            *final(self) == old(self).preprocessed_with(world),
    ;
}

/// A light that emits the same intensity in all directions from one point.
#[derive(Clone, Copy, Debug, PartialEq, Eq, Structural)]
pub struct PointLight {
    pub num_samples: u32,
    pub p_light: Point3,
    pub intensity: Spectrum,
}

impl PointLight {
    /// The light with the given intensity at `p_light`, the position that
    /// the light's transform gives to the origin.
    pub fn new(p_light: Point3, intensity: Spectrum) -> (l: PointLight)
        ensures
            l == (PointLight { num_samples: 1, p_light, intensity }),
    {
        Self { num_samples: 1, p_light, intensity }
    }
}

impl LightInterface for PointLight {
    open spec fn flag_set(&self) -> Set<LightFlag> {
        Set::<LightFlag>::empty().insert(LightFlag::DeltaPosition)
    }

    open spec fn usable(&self) -> bool {
        true
    }

    /// The direction points at the light, the test runs from `reference`
    /// to the light at the time of `reference`, and the radiance falls off
    /// with the squared distance. At the light's own position there is no
    /// direction and no distance to divide by: the direction is the zero
    /// vector and the radiance is black.
    open spec fn sample_of(&self, reference: Interaction) -> Option<(Incidence, Shadow, Radiance)> {
        let shadow = Shadow::Between(
            VisibilityTester {
                p0: reference,
                p1: Interaction::bare(self.p_light, reference.time),
            },
        );
        if reference.p.coincides(self.p_light) {
            Some(
                (
                    Incidence::Along(
                        Vector3 {
                            x: Scalar { bits: 0 },
                            y: Scalar { bits: 0 },
                            z: Scalar { bits: 0 },
                        },
                    ),
                    shadow,
                    Radiance::Constant(
                        Spectrum {
                            r: Scalar { bits: 0 },
                            g: Scalar { bits: 0 },
                            b: Scalar { bits: 0 },
                        },
                    ),
                ),
            )
        } else {
            Some(
                (
                    Incidence::Toward(self.p_light),
                    shadow,
                    Radiance::InverseSquare {
                        intensity: self.intensity,
                        from: reference.p,
                        to: self.p_light,
                    },
                ),
            )
        }
    }

    open spec fn power_of(&self) -> Option<Power> {
        Some(Power::Isotropic(self.intensity))
    }

    open spec fn preprocessed_with(&self, world: Sphere) -> Self {
        *self
    }

    fn flags(&self) -> (f: LightFlags) {
        LightFlags::single(LightFlag::DeltaPosition)
    }

    fn le(&self) -> (s: Spectrum) {
        Spectrum::new(Scalar::zero())
    }

    fn sample_li(
        &self,
        reference: &Interaction,
        u: &Point2,
        wi: &mut Incidence,
        pdf: &mut Scalar,
        vis: &mut Option<Shadow>,
    ) -> (li: Radiance) {
        *pdf = Scalar::one();
        *vis = Some(
            Shadow::Between(
                VisibilityTester::new(*reference, Interaction::at(self.p_light, reference.time)),
            ),
        );
        if reference.p.is_at(&self.p_light) {
            *wi = Incidence::Along(Vector3::zero());
            Radiance::Constant(Spectrum::new(Scalar::zero()))
        } else {
            *wi = Incidence::Toward(self.p_light);
            Radiance::InverseSquare {
                intensity: self.intensity,
                from: reference.p,
                to: self.p_light,
            }
        }
    }

    fn power(&self) -> (p: Power) {
        Power::Isotropic(self.intensity)
    }

    fn preprocess(&mut self, world: Sphere) {
    }
}

/// A light that shines with the same radiance along one direction
/// everywhere.
#[derive(Clone, Copy, Debug, PartialEq, Eq, Structural)]
pub struct DirectionalLight {
    pub l: Spectrum,
    pub w_light: Vector3,
    /// The sphere around the scene, once `preprocess` has stored it.
    pub world: Option<Sphere>,
}

impl DirectionalLight {
    /// Whether the light knows the extent of the scene.
    pub open spec fn preprocessed(self) -> bool {
        self.world.is_some()
    }

    /// The light with radiance `l` towards `w_light`, the unit vector that
    /// the light's transform gives to its direction. It does not know the
    /// scene yet.
    pub fn new(l: Spectrum, w_light: Vector3) -> (d: DirectionalLight)
        ensures
            d == (DirectionalLight { l, w_light, world: None }),
    {
        Self { l, w_light, world: None }
    }

    pub fn is_preprocessed(&self) -> (r: bool)
        ensures
            r == self.preprocessed(),
    {
        self.world.is_some()
    }
}

impl LightInterface for DirectionalLight {
    /// The light is a delta distribution in direction.
    open spec fn flag_set(&self) -> Set<LightFlag> {
        Set::<LightFlag>::empty().insert(LightFlag::DeltaDirection)
    }

    /// The light must have been preprocessed: before that it knows no
    /// radius.
    open spec fn usable(&self) -> bool {
        self.preprocessed()
    }

    /// The direction is that of the light, the test runs from `reference`
    /// out of the scene, and the radiance is that of the light.
    open spec fn sample_of(&self, reference: Interaction) -> Option<(Incidence, Shadow, Radiance)> {
        match self.world {
            Some(world) => Some(
                (
                    Incidence::Along(self.w_light),
                    Shadow::Outward { from: reference, along: self.w_light, radius: world.radius },
                    Radiance::Constant(self.l),
                ),
            ),
            None => None,
        }
    }

    /// The power that falls on the disk that covers the scene.
    open spec fn power_of(&self) -> Option<Power> {
        match self.world {
            Some(world) => Some(Power::Disk { radiance: self.l, radius: world.radius }),
            None => None,
        }
    }

    open spec fn preprocessed_with(&self, world: Sphere) -> Self {
        DirectionalLight { world: Some(world), ..*self }
    }

    fn flags(&self) -> (f: LightFlags) {
        LightFlags::single(LightFlag::DeltaDirection)
    }

    fn le(&self) -> (s: Spectrum) {
        Spectrum::new(Scalar::zero())
    }

    fn sample_li(
        &self,
        reference: &Interaction,
        u: &Point2,
        wi: &mut Incidence,
        pdf: &mut Scalar,
        vis: &mut Option<Shadow>,
    ) -> (li: Radiance) {
        *wi = Incidence::Along(self.w_light);
        *pdf = Scalar::one();
        let radius = match self.world {
            Some(s) => s.radius,
            None => Scalar::zero(),
        };
        *vis = Some(Shadow::Outward { from: *reference, along: self.w_light, radius });
        Radiance::Constant(self.l)
    }

    fn power(&self) -> (p: Power) {
        let radius = match self.world {
            Some(s) => s.radius,
            None => Scalar::zero(),
        };
        Power::Disk { radiance: self.l, radius }
    }

    fn preprocess(&mut self, world: Sphere) {
        self.world = Some(world);
    }
}

/// A directional light that was just made may not be asked for its power;
/// once it is preprocessed with the sphere around the scene it may, and
/// the power is that on the disk with the radius of that sphere.
pub proof fn power_needs_preprocess(l: Spectrum, w_light: Vector3, world: Sphere)
    ensures
        !(DirectionalLight { l, w_light, world: None }).usable(),
        (DirectionalLight { l, w_light, world: None }).preprocessed_with(world).usable(),
        (DirectionalLight { l, w_light, world: None }).preprocessed_with(world).power_of() == Some(
            Power::Disk { radiance: l, radius: world.radius },
        ),
        !Light::Directional(DirectionalLight { l, w_light, world: None }).usable(),
        Light::Directional(DirectionalLight { l, w_light, world: None }).preprocessed_with(
            world,
        ).power_of() == Some(Power::Disk { radiance: l, radius: world.radius }),
{
}

/// Once a point or directional light has been told the sphere around the
/// scene, it may be sampled and asked for its power; its properties are
/// what they were.
pub proof fn told_lights_are_usable(l: Light, world: Sphere)
    requires
        l.is_delta(),
    ensures
        l.preprocessed_with(world).usable(),
        l.preprocessed_with(world).flag_set() == l.flag_set(),
{
}

/// A surface that emits light, given by the texture of its emission and the
/// shape that carries it.
#[derive(Clone, Copy, Debug, PartialEq, Eq, Structural)]
pub struct DiffuseAreaLight {
    pub ke: SpectrumTexture,
    pub shape: Triangle,
    pub num_samples: u32,
}

impl DiffuseAreaLight {
    pub fn new(ke: SpectrumTexture, shape: Triangle, num_samples: u32) -> (l: DiffuseAreaLight)
        ensures
            l == (DiffuseAreaLight { ke, shape, num_samples }),
    {
        Self { ke, shape, num_samples }
    }

    /// The properties of the light: it has an area.
    pub fn flags(&self) -> (f: LightFlags)
        ensures
            f@ == Set::<LightFlag>::empty().insert(LightFlag::Area),
    {
        LightFlags::single(LightFlag::Area)
    }

    /// The emitted radiance at a point of the surface; not evaluated here.
    #[allow(non_snake_case)]
    pub fn L(&self, inter: &Interaction, w: &Vector3) {
    }
}

/// Light from the environment, arriving from all directions.
#[derive(Clone, Copy, Debug, PartialEq, Eq, Structural)]
pub struct InfiniteAreaLight {
    pub scale: Spectrum,
    /// The sphere around the scene, once `preprocess` has stored it.
    pub world: Option<Sphere>,
}

impl InfiniteAreaLight {
    pub fn new(scale: Spectrum) -> (l: InfiniteAreaLight)
        ensures
            l == (InfiniteAreaLight { scale, world: None }),
    {
        Self { scale, world: None }
    }

    /// The properties of the light: it surrounds the scene.
    pub fn flags(&self) -> (f: LightFlags)
        ensures
            f@ == Set::<LightFlag>::empty().insert(LightFlag::Infinite),
    {
        LightFlags::single(LightFlag::Infinite)
    }
}

/// A light.
#[derive(Clone, Copy, Debug, PartialEq, Eq, Structural)]
pub enum Light {
    Point(PointLight),
    Directional(DirectionalLight),
    Area(DiffuseAreaLight),
    Infinite(InfiniteAreaLight),
}

/// Where the transform of a light puts it: the image of the origin, and the
/// normalised image of the direction `(0, 0, -1)`.
#[derive(Clone, Copy, Debug, PartialEq, Eq, Structural)]
pub struct LightPlacement {
    pub position: Point3,
    pub direction: Vector3,
}

impl Light {
    /// Whether the light samples without chance and has its power in
    /// closed form: point and directional lights do.
    pub open spec fn is_delta(self) -> bool {
        self is Point || self is Directional
    }

    /// The light of an imported scene.
    pub open spec fn imported(
        kind: gltf::khr_lights_punctual::Kind,
        color: Spectrum,
        placement: LightPlacement,
    ) -> Light {
        match kind {
            gltf::khr_lights_punctual::Kind::Directional => Light::Directional(
                DirectionalLight { l: color, w_light: placement.direction, world: None },
            ),
            _ => Light::Point(
                PointLight { num_samples: 1, p_light: placement.position, intensity: color },
            ),
        }
    }

    /// The light of an imported scene: a directional light for a
    /// directional one, and a point light both for a point light and for a
    /// spot light, whose cone is ignored.
    pub fn from_gltf(
        kind: &gltf::khr_lights_punctual::Kind,
        color: Spectrum,
        placement: &LightPlacement,
    ) -> (l: Light)
        ensures
            l == Light::imported(*kind, color, *placement),
    {
        match kind {
            gltf::khr_lights_punctual::Kind::Directional => Light::Directional(
                DirectionalLight::new(color, placement.direction),
            ),
            gltf::khr_lights_punctual::Kind::Point => Light::Point(
                PointLight::new(placement.position, color),
            ),
            gltf::khr_lights_punctual::Kind::Spot { .. } => Light::Point(
                PointLight::new(placement.position, color),
            ),
        }
    }

    pub fn is_usable(&self) -> (r: bool)
        ensures
            r == self.usable(),
    {
        match self {
            Light::Point(_) => true,
            Light::Directional(l) => l.is_preprocessed(),
            _ => false,
        }
    }
}

impl LightInterface for Light {
    open spec fn flag_set(&self) -> Set<LightFlag> {
        match self {
            Light::Point(l) => l.flag_set(),
            Light::Directional(l) => l.flag_set(),
            Light::Area(_) => Set::<LightFlag>::empty().insert(LightFlag::Area),
            Light::Infinite(_) => Set::<LightFlag>::empty().insert(LightFlag::Infinite),
        }
    }

    /// Point lights may always be used, directional lights once they are
    /// preprocessed; area and infinite lights offer neither samples nor
    /// their power.
    open spec fn usable(&self) -> bool {
        match self {
            Light::Point(l) => l.usable(),
            Light::Directional(l) => l.usable(),
            _ => false,
        }
    }

    open spec fn sample_of(&self, reference: Interaction) -> Option<(Incidence, Shadow, Radiance)> {
        match self {
            Light::Point(l) => l.sample_of(reference),
            Light::Directional(l) => l.sample_of(reference),
            _ => None,
        }
    }

    open spec fn power_of(&self) -> Option<Power> {
        match self {
            Light::Point(l) => l.power_of(),
            Light::Directional(l) => l.power_of(),
            _ => None,
        }
    }

    open spec fn preprocessed_with(&self, world: Sphere) -> Self {
        match self {
            Light::Directional(l) => Light::Directional(l.preprocessed_with(world)),
            Light::Infinite(l) => Light::Infinite(InfiniteAreaLight { world: Some(world), ..*l }),
            _ => *self,
        }
    }

    fn flags(&self) -> (f: LightFlags) {
        match self {
            Light::Point(l) => l.flags(),
            Light::Directional(l) => l.flags(),
            Light::Area(l) => l.flags(),
            Light::Infinite(l) => l.flags(),
        }
    }

    fn le(&self) -> (s: Spectrum) {
        Spectrum::new(Scalar::zero())
    }

    fn sample_li(
        &self,
        reference: &Interaction,
        u: &Point2,
        wi: &mut Incidence,
        pdf: &mut Scalar,
        vis: &mut Option<Shadow>,
    ) -> (li: Radiance) {
        match self {
            Light::Point(l) => l.sample_li(reference, u, wi, pdf, vis),
            Light::Directional(l) => l.sample_li(reference, u, wi, pdf, vis),
            _ => Radiance::Constant(Spectrum::new(Scalar::zero())),
        }
    }

    fn power(&self) -> (p: Power) {
        match self {
            Light::Point(l) => l.power(),
            Light::Directional(l) => l.power(),
            _ => Power::Isotropic(Spectrum::new(Scalar::zero())),
        }
    }

    fn preprocess(&mut self, world: Sphere) {
        match self {
            Light::Directional(l) => {
                l.world = Some(world);
            },
            Light::Infinite(l) => {
                l.world = Some(world);
            },
            _ => {},
        }
    }
}

} // verus!
