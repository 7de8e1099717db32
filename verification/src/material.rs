//! Materials: from the parameters of a surface to the lobes at one of its
//! points.

use crate::bsdf::frame_at;
use crate::bsdf::ScatteringFrame;
use crate::bsdf::BSDF;
use crate::bxdf::BxDF;
use crate::bxdf::Fresnel;
use crate::bxdf::FresnelNoOp;
use crate::bxdf::FresnelSpecular;
use crate::bxdf::LambertianReflection;
use crate::bxdf::SpecularReflection;
use crate::interaction::PerturbedFrame;
use crate::interaction::Shading;
use crate::interaction::SurfaceMediumInteraction;
use crate::scalar::Scalar;
use crate::scalar::ONE_BITS;
use crate::spectrum::Spectrum;
use crate::texture::ScalarTexture;
use crate::texture::SpectrumTexture;
use crate::TransportMode;
use vstd::prelude::*;

verus! {

/// The spectrum with all components 1.
pub open spec fn white() -> Spectrum {
    Spectrum { r: Scalar { bits: ONE_BITS }, g: Scalar { bits: ONE_BITS }, b: Scalar { bits: ONE_BITS } }
}

/// The shading frame that a normal map gives: its normal, with the
/// tangents aligned to the old ones where the cross product is not zero,
/// and an arbitrary pair of tangents where it is.
pub open spec fn perturbed_shading(f: PerturbedFrame) -> Shading {
    if f.cross_norm_squared.positive() {
        Shading { n: f.ns, dpdu: f.aligned_ss, dpdv: f.aligned_ts }
    } else {
        Shading { n: f.ns, dpdu: f.arbitrary_ss, dpdv: f.arbitrary_ts }
    }
}

/// A normal map that gives back the normal and the tangents of the shading
/// frame, with a cross product that is not zero, leaves the frame as it is.
pub proof fn unperturbed_frame_is_kept(shading: Shading, f: PerturbedFrame)
    requires
        f.ns == shading.n,
        f.cross_norm_squared.positive(),
        f.aligned_ss == shading.dpdu,
        f.aligned_ts == shading.dpdv,
    ensures
        perturbed_shading(f) == shading,
{
}

/// The shading frame at `si` under the normal map in slot `d`: the frame
/// that the map gives there, or the frame as it is where `si` carries no
/// sample of the map.
pub open spec fn mapped_shading(si: SurfaceMediumInteraction, d: usize) -> Shading {
    if d < si.texels.frames@.len() {
        perturbed_shading(si.texels.frames@[d as int])
    } else {
        si.shading
    }
}

/// Replaces the shading frame of `si` by the frame that the normal map in
/// slot `d` gives there; a missing sample of the map leaves the frame as
/// it is. The geometric normal, and everything else, stays.
pub fn normal_mapping(d: usize, si: &mut SurfaceMediumInteraction)
    ensures
        final(si).shading == mapped_shading(*old(si), d),
        final(si).same_surface_point(*old(si)),
        final(si).bsdf == old(si).bsdf,
{
    if d < si.texels.frames.len() {
        let f: PerturbedFrame = si.texels.frames[d];
        if f.cross_norm_squared.is_positive() {
            si.shading = Shading { n: f.ns, dpdu: f.aligned_ss, dpdv: f.aligned_ts };
        } else {
            si.shading = Shading { n: f.ns, dpdu: f.arbitrary_ss, dpdv: f.arbitrary_ts };
        }
    }
}

/// Displacement by a height texture; the shading frame stays as it is.
pub fn bump_mapping(d: &ScalarTexture, si: &mut SurfaceMediumInteraction)
    ensures
        *final(si) == *old(si),
{
}

/// A diffuse surface.
#[derive(Clone, Copy, Debug, PartialEq, Eq, Structural)]
pub struct MatteMaterial {
    pub kd: SpectrumTexture,
}

/// A perfect mirror.
#[derive(Clone, Copy, Debug, PartialEq, Eq, Structural)]
pub struct MirrorMaterial {}

/// A smooth dielectric such as glass.
#[derive(Clone, Copy, Debug, PartialEq, Eq, Structural)]
pub struct GlassMaterial {
    pub kr: SpectrumTexture,
    pub kt: SpectrumTexture,
    pub index: ScalarTexture,
}

/// A principled surface, given by colour, metalness, index of refraction
/// and roughness. Its lobes need the host's arithmetic and are compiled
/// there.
#[derive(Clone, Copy, Debug, PartialEq, Eq, Structural)]
pub struct DisneyMaterial {
    pub color: SpectrumTexture,
    pub metallic: ScalarTexture,
    pub eta: ScalarTexture,
    pub roughness: ScalarTexture,
}

/// A material whose shading frame is perturbed by the normal map in the
/// slot `normal_map`.
#[derive(Debug, PartialEq, Eq)]
pub struct NormalMaterial {
    pub normal_map: usize,
    pub material: Box<Material>,
}

/// A material whose surface is displaced by a height texture.
#[derive(Debug, PartialEq, Eq)]
pub struct BumpMaterial {
    pub bump_map: ScalarTexture,
    pub material: Box<Material>,
}

/// A material.
#[derive(Debug, PartialEq, Eq)]
pub enum Material {
    Matte(MatteMaterial),
    Mirror(MirrorMaterial),
    Glass(GlassMaterial),
    Disney(DisneyMaterial),
    Normal(NormalMaterial),
}

/// What a material leaves in the scattering slot of a surface point: a
/// frame and lobes. A material whose lobes are not compiled here leaves
/// nothing, and the slot stays as it was.
pub type Scattering = Option<(ScatteringFrame, Seq<BxDF>)>;

/// The lobes of a diffuse surface with reflectance `r`.
pub open spec fn matte_scattering(si: SurfaceMediumInteraction, r: Spectrum) -> Scattering {
    Some(
        (
            frame_at(si, Scalar { bits: ONE_BITS }),
            seq![BxDF::Lambertian(LambertianReflection { r })],
        ),
    )
}

/// The lobes of a perfect mirror.
pub open spec fn mirror_scattering(si: SurfaceMediumInteraction) -> Scattering {
    Some(
        (
            frame_at(si, Scalar { bits: ONE_BITS }),
            seq![
                BxDF::SpecularReflection(
                    SpecularReflection { r: white(), fresnel: Fresnel::NoOp(FresnelNoOp {  }) },
                ),
            ],
        ),
    )
}

/// The lobes of a smooth dielectric with reflectance `r`, transmittance
/// `t` and index of refraction `eta` against a medium of index 1: a fresh
/// scattering without lobes where it neither reflects nor transmits, else
/// one lobe for both.
pub open spec fn glass_scattering(
    si: SurfaceMediumInteraction,
    r: Spectrum,
    t: Spectrum,
    eta: Scalar,
    mode: TransportMode,
) -> Scattering {
    if r.black() && t.black() {
        Some((frame_at(si, eta), Seq::<BxDF>::empty()))
    } else {
        Some(
            (
                frame_at(si, eta),
                seq![
                    BxDF::FresnelSpecular(
                        FresnelSpecular { r, t, eta_a: Scalar { bits: ONE_BITS }, eta_b: eta, mode },
                    ),
                ],
            ),
        )
    }
}

/// The surface point with another shading frame.
pub open spec fn reshaded(si: SurfaceMediumInteraction, shading: Shading) -> SurfaceMediumInteraction {
    SurfaceMediumInteraction { shading, ..si }
}

impl Material {
    /// The shading frame that the material leaves at `si`.
    pub open spec fn shading_at(self, si: SurfaceMediumInteraction) -> Shading
        decreases self,
    {
        match self {
            Material::Normal(m) => m.material.shading_at(
                reshaded(si, mapped_shading(si, m.normal_map)),
            ),
            _ => si.shading,
        }
    }

    /// The scattering that the material leaves at `si`.
    pub open spec fn scattering_at(self, si: SurfaceMediumInteraction, mode: TransportMode) -> Scattering
        decreases self,
    {
        match self {
            Material::Matte(m) => matte_scattering(si, m.kd.value_at(si)),
            Material::Mirror(_) => mirror_scattering(si),
            Material::Glass(m) => glass_scattering(
                si,
                m.kr.value_at(si),
                m.kt.value_at(si),
                m.index.value_at(si),
                mode,
            ),
            Material::Disney(_) => None,
            Material::Normal(m) => m.material.scattering_at(
                reshaded(si, mapped_shading(si, m.normal_map)),
                mode,
            ),
        }
    }
}

impl Material {
    /// Whether every image texture that the material refers to exists in
    /// an arena with the given numbers of colour images, single-channel
    /// images and normal maps.
    pub open spec fn textures_within(self, spectra: nat, scalars: nat, normals: nat) -> bool
        decreases self,
    {
        match self {
            Material::Matte(m) => m.kd.within(spectra),
            Material::Mirror(_) => true,
            Material::Glass(m) => m.kr.within(spectra) && m.kt.within(spectra) && m.index.within(
                scalars,
            ),
            Material::Disney(m) => m.color.within(spectra) && m.metallic.within(scalars)
                && m.eta.within(scalars) && m.roughness.within(scalars),
            Material::Normal(m) => m.normal_map < normals && m.material.textures_within(
                spectra,
                scalars,
                normals,
            ),
        }
    }

    /// Whether the material is decorated at most once: what stands behind
    /// a normal map has no normal map of its own.
    pub open spec fn decorated_once(self) -> bool {
        match self {
            Material::Normal(m) => !(*m.material is Normal),
            _ => true,
        }
    }

    /// Whether the lobes of the material are compiled by this library;
    /// those of a principled surface are not.
    pub open spec fn compiled_here(self) -> bool
        decreases self,
    {
        match self {
            Material::Disney(_) => false,
            Material::Normal(m) => m.material.compiled_here(),
            _ => true,
        }
    }
}

/// The textures of a material stay within an arena that grows.
pub proof fn textures_stay_within(
    m: Material,
    spectra: nat,
    scalars: nat,
    normals: nat,
    more_spectra: nat,
    more_scalars: nat,
    more_normals: nat,
)
    requires
        m.textures_within(spectra, scalars, normals),
        spectra <= more_spectra,
        scalars <= more_scalars,
        normals <= more_normals,
    ensures
        m.textures_within(more_spectra, more_scalars, more_normals),
    decreases m,
{
    match m {
        Material::Normal(n) => {
            textures_stay_within(
                *n.material,
                spectra,
                scalars,
                normals,
                more_spectra,
                more_scalars,
                more_normals,
            );
        },
        _ => {},
    }
}

/// What a material leaves at a surface point depends on the point, its
/// texture samples and its shading frame, and on nothing else: not on the
/// scattering that an earlier call may have left there.
pub proof fn scattering_ignores_earlier_scattering(
    m: Material,
    a: SurfaceMediumInteraction,
    b: SurfaceMediumInteraction,
    mode: TransportMode,
)
    requires
        a.same_surface_point(b),
        a.shading == b.shading,
    ensures
        m.shading_at(a) == m.shading_at(b),
        m.scattering_at(a, mode) == m.scattering_at(b, mode),
    decreases m,
{
    match m {
        Material::Normal(n) => {
            let shading = mapped_shading(a, n.normal_map);
            scattering_ignores_earlier_scattering(
                *n.material,
                reshaded(a, shading),
                reshaded(b, shading),
                mode,
            );
        },
        _ => {},
    }
}

proof fn lemma_rescattering(
    m: Material,
    before: SurfaceMediumInteraction,
    after: SurfaceMediumInteraction,
    mode: TransportMode,
)
    requires
        after.same_surface_point(before),
        after.shading == m.shading_at(before),
    ensures
        m.shading_at(after) == m.shading_at(before),
        m.scattering_at(after, mode) == m.scattering_at(before, mode),
    decreases m,
{
    match m {
        Material::Normal(n) => {
            if n.normal_map < before.texels.frames@.len() {
                let shading = mapped_shading(before, n.normal_map);
                scattering_ignores_earlier_scattering(
                    *n.material,
                    reshaded(after, shading),
                    reshaded(before, shading),
                    mode,
                );
            } else {
                lemma_rescattering(
                    *n.material,
                    reshaded(before, before.shading),
                    reshaded(after, after.shading),
                    mode,
                );
            }
        },
        _ => {
            scattering_ignores_earlier_scattering(m, after, before, mode);
        },
    }
}

/// Computing the scattering is idempotent: at a surface point that a
/// material has already written to, the same material leaves the same
/// shading frame and the same scattering again.
pub proof fn scattering_is_idempotent(
    m: Material,
    before: SurfaceMediumInteraction,
    after: SurfaceMediumInteraction,
    mode: TransportMode,
)
    requires
        scattered(before, after, m.shading_at(before), m.scattering_at(before, mode)),
    ensures
        m.shading_at(after) == m.shading_at(before),
        m.scattering_at(after, mode) == m.scattering_at(before, mode),
{
    lemma_rescattering(m, before, after, mode);
}

/// Whether `after` is what a material with the given frame and scattering
/// makes of `before`.
pub open spec fn scattered(
    before: SurfaceMediumInteraction,
    after: SurfaceMediumInteraction,
    shading: Shading,
    scattering: Scattering,
) -> bool {
    &&& after.same_surface_point(before)
    &&& after.shading == shading
    &&& match scattering {
        Some((frame, lobes)) => after.bsdf matches Some(b) && b.frame() == frame && b.lobes()
            == lobes,
        None => after.bsdf == before.bsdf,
    }
}

/// What every material offers.
pub trait MaterialInterface {
    /// Whether the lobes of the material are compiled by this library.
    spec fn compiled(&self) -> bool;

    /// The shading frame that the material leaves at `si`.
    spec fn shading(&self, si: SurfaceMediumInteraction) -> Shading;

    /// The scattering that the material leaves at `si`.
    spec fn scattering(&self, si: SurfaceMediumInteraction, mode: TransportMode) -> Scattering;

    /// Evaluates the parameters of the material at `si` and writes the
    /// scattering there.
    fn compute_scattering_functions(&self, si: &mut SurfaceMediumInteraction, mode: TransportMode)
        requires
            self.compiled(),
        ensures
            scattered(*old(si), *final(si), self.shading(*old(si)), self.scattering(*old(si), mode)),
    ;
}

impl MatteMaterial {
    pub fn new(kd: SpectrumTexture) -> (m: MatteMaterial)
        ensures
            m.kd == kd,
    {
        Self { kd }
    }
}

impl MaterialInterface for MatteMaterial {
    open spec fn compiled(&self) -> bool {
        true
    }

    open spec fn shading(&self, si: SurfaceMediumInteraction) -> Shading {
        si.shading
    }

    open spec fn scattering(&self, si: SurfaceMediumInteraction, mode: TransportMode) -> Scattering {
        matte_scattering(si, self.kd.value_at(si))
    }

    fn compute_scattering_functions(&self, si: &mut SurfaceMediumInteraction, mode: TransportMode) {
        let mut bsdf = BSDF::new(si, Scalar::one());
        let r = self.kd.evaluate(si);
        bsdf.add(BxDF::Lambertian(LambertianReflection::new(r)));
        assert(bsdf.lobes() =~= seq![BxDF::Lambertian(LambertianReflection { r })]);
        si.bsdf = Some(bsdf);
    }
}

impl MirrorMaterial {
    pub fn new() -> (m: MirrorMaterial) {
        Self {  }
    }
}

impl MaterialInterface for MirrorMaterial {
    open spec fn compiled(&self) -> bool {
        true
    }

    open spec fn shading(&self, si: SurfaceMediumInteraction) -> Shading {
        si.shading
    }

    open spec fn scattering(&self, si: SurfaceMediumInteraction, mode: TransportMode) -> Scattering {
        mirror_scattering(si)
    }

    fn compute_scattering_functions(&self, si: &mut SurfaceMediumInteraction, mode: TransportMode) {
        let mut bsdf = BSDF::new(si, Scalar::one());
        let r = Spectrum::new(Scalar::one());
        let lobe = BxDF::SpecularReflection(SpecularReflection::new(r, Fresnel::NoOp(FresnelNoOp {  })));
        bsdf.add(lobe);
        assert(bsdf.lobes() =~= seq![lobe]);
        si.bsdf = Some(bsdf);
    }
}

impl GlassMaterial {
    pub fn new(kr: SpectrumTexture, kt: SpectrumTexture, index: ScalarTexture) -> (m: GlassMaterial)
        ensures
            m == (GlassMaterial { kr, kt, index }),
    {
        Self { kr, kt, index }
    }
}

impl MaterialInterface for GlassMaterial {
    open spec fn compiled(&self) -> bool {
        true
    }

    open spec fn shading(&self, si: SurfaceMediumInteraction) -> Shading {
        si.shading
    }

    open spec fn scattering(&self, si: SurfaceMediumInteraction, mode: TransportMode) -> Scattering {
        glass_scattering(
            si,
            self.kr.value_at(si),
            self.kt.value_at(si),
            self.index.value_at(si),
            mode,
        )
    }

    fn compute_scattering_functions(&self, si: &mut SurfaceMediumInteraction, mode: TransportMode) {
        let eta = self.index.evaluate(si);
        let r = self.kr.evaluate(si);
        let t = self.kt.evaluate(si);
        let mut bsdf = BSDF::new(si, eta);
        if r.is_black() && t.is_black() {
            si.bsdf = Some(bsdf);
            return ;
        }
        let lobe = BxDF::FresnelSpecular(FresnelSpecular::new(r, t, Scalar::one(), eta, mode));
        bsdf.add(lobe);
        assert(bsdf.lobes() =~= seq![lobe]);
        si.bsdf = Some(bsdf);
    }
}

impl DisneyMaterial {
    pub fn new(
        color: SpectrumTexture,
        metallic: ScalarTexture,
        eta: ScalarTexture,
        roughness: ScalarTexture,
    ) -> (m: DisneyMaterial)
        ensures
            m == (DisneyMaterial { color, metallic, eta, roughness }),
    {
        Self { color, metallic, eta, roughness }
    }
}

impl NormalMaterial {
    pub fn new(normal_map: usize, material: Box<Material>) -> (m: NormalMaterial)
        ensures
            m.normal_map == normal_map,
            m.material == material,
    {
        Self { normal_map, material }
    }
}

/// The material itself, or the material behind a normal map where there is
/// one.
pub fn with_normal(material: Material, normal_map: Option<usize>) -> (m: Material)
    ensures
        m == match normal_map {
            Some(slot) => Material::Normal(
                NormalMaterial { normal_map: slot, material: Box::new(material) },
            ),
            None => material,
        },
{
    if let Some(normal_map) = normal_map {
        Material::Normal(NormalMaterial::new(normal_map, Box::new(material)))
    } else {
        material
    }
}

impl Material {
    /// Whether `compute_scattering_functions` may be called: the lobes of
    /// the material are compiled by this library.
    pub fn is_compiled_here(&self) -> (r: bool)
        ensures
            r == self.compiled_here(),
        decreases self,
    {
        match self {
            Material::Disney(_) => false,
            Material::Normal(m) => m.material.is_compiled_here(),
            _ => true,
        }
    }

    fn compute(&self, si: &mut SurfaceMediumInteraction, mode: TransportMode)
        requires
            self.compiled_here(),
        ensures
            scattered(
                *old(si),
                *final(si),
                self.shading_at(*old(si)),
                self.scattering_at(*old(si), mode),
            ),
        decreases self,
    {
        match self {
            Material::Matte(m) => m.compute_scattering_functions(si, mode),
            Material::Mirror(m) => m.compute_scattering_functions(si, mode),
            Material::Glass(m) => m.compute_scattering_functions(si, mode),
            Material::Disney(_) => {},
            Material::Normal(m) => {
                normal_mapping(m.normal_map, si);
                proof {
                    assert(*si == reshaded(*old(si), mapped_shading(*old(si), m.normal_map)));
                }
                m.material.compute(si, mode);
            },
        }
    }
}

impl MaterialInterface for NormalMaterial {
    open spec fn compiled(&self) -> bool {
        self.material.compiled_here()
    }

    open spec fn shading(&self, si: SurfaceMediumInteraction) -> Shading {
        self.material.shading_at(
            reshaded(si, mapped_shading(si, self.normal_map)),
        )
    }

    open spec fn scattering(&self, si: SurfaceMediumInteraction, mode: TransportMode) -> Scattering {
        self.material.scattering_at(
            reshaded(si, mapped_shading(si, self.normal_map)),
            mode,
        )
    }

    fn compute_scattering_functions(&self, si: &mut SurfaceMediumInteraction, mode: TransportMode) {
        normal_mapping(self.normal_map, si);
        proof {
            assert(*si == reshaded(*old(si), mapped_shading(*old(si), self.normal_map)));
        }
        self.material.compute(si, mode);
    }
}

impl MaterialInterface for Material {
    open spec fn compiled(&self) -> bool {
        self.compiled_here()
    }

    open spec fn shading(&self, si: SurfaceMediumInteraction) -> Shading {
        self.shading_at(si)
    }

    open spec fn scattering(&self, si: SurfaceMediumInteraction, mode: TransportMode) -> Scattering {
        self.scattering_at(si, mode)
    }

    fn compute_scattering_functions(&self, si: &mut SurfaceMediumInteraction, mode: TransportMode) {
        self.compute(si, mode)
    }
}

} // verus!
