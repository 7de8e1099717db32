//! Scattering lobes in the local shading frame, where the z-axis is the
//! shading normal and the cosine of a direction's polar angle is its z.
//!
//! A lobe decides here what kind of value it has and for which directions;
//! the value itself, where it needs arithmetic, is described and left to the
//! host to evaluate.

use crate::flags::BxDFType;
use crate::flags::LobeFlag;
use crate::geometry::Point2;
use crate::geometry::Vector3;
use crate::scalar::Scalar;
use crate::spectrum::Spectrum;
use crate::TransportMode;
use vstd::arithmetic::power2::pow2;
use vstd::prelude::*;

verus! {

/// The cosine of the polar angle of `w`.
pub fn cos_theta(w: &Vector3) -> (c: Scalar)
    ensures
        c == w.z,
{
    w.z
}

/// The absolute cosine of the polar angle of `w`.
pub fn abs_cos_theta(w: &Vector3) -> (c: Scalar)
    ensures
        c == w.z.absolute(),
{
    w.z.abs()
}

/// Whether `w` and `wp` lie strictly on the same side of the surface: the
/// product of their cosines, rounded to binary32, is greater than zero.
pub fn same_hemisphere(w: &Vector3, wp: &Vector3) -> (r: bool)
    ensures
        r == w.z.product_positive(wp.z),
{
    w.z.product_is_positive(&wp.z)
}

/// Two directions whose cosines have opposite signs, or one of which lies
/// in the surface, are never in the same hemisphere.
pub proof fn same_hemisphere_rejects_mixed_signs(w: Vector3, wp: Vector3)
    requires
        (w.z.positive() && wp.z.negative()) || (w.z.negative() && wp.z.positive())
            || w.z.zero_valued() || wp.z.zero_valued(),
    ensures
        !w.z.product_positive(wp.z),
{
}

/// Two directions with cosines of the same strict sign are in the same
/// hemisphere, unless both are so close to the surface that the product of
/// the cosines rounds to zero.
pub proof fn same_hemisphere_accepts_equal_signs(w: Vector3, wp: Vector3)
    requires
        (w.z.positive() && wp.z.positive()) || (w.z.negative() && wp.z.negative()),
        w.z.infinite() || wp.z.infinite() || w.z.significand() * wp.z.significand() * pow2(
            (w.z.unit_exponent() + wp.z.unit_exponent()) as nat,
        ) > pow2(148),
    ensures
        w.z.product_positive(wp.z),
{
}

/// Whether two directions are in the same hemisphere does not depend on
/// their order.
pub proof fn same_hemisphere_is_symmetric(w: Vector3, wp: Vector3)
    ensures
        w.z.product_positive(wp.z) == wp.z.product_positive(w.z),
{
    let a = w.z.significand();
    let b = wp.z.significand();
    assert(a * b == b * a) by (nonlinear_arith);
}

/// The value of a lobe for a pair of directions.
#[derive(Clone, Copy, Debug, PartialEq, Eq, Structural)]
pub enum LobeValue {
    /// No light is scattered.
    Zero,
    /// The spectrum divided by pi.
    OverPi(Spectrum),
    /// The spectrum, weighted by the Fresnel term at the cosine `cos_i` of
    /// the incident direction and divided by the absolute value of that
    /// cosine: the division cancels the cosine that an integrator applies.
    /// A lobe gives this value only for a cosine that is not zero.
    FresnelOverCosine { r: Spectrum, fresnel: Fresnel, cos_i: Scalar },
    /// The spectrum times the reflectance `weight` of the interface,
    /// divided by the absolute value of the cosine `cos_i` of the incident
    /// direction. A lobe gives this value only for a cosine that is not
    /// zero.
    Reflected { r: Spectrum, weight: Scalar, cos_i: Scalar },
    /// The spectrum times one less the reflectance of the interface, times
    /// the squared ratio `(eta_i / eta_t)^2` of the indices of refraction
    /// where the value is compressed and times 1 where it is not, divided
    /// by the absolute value of the cosine `cos_i` of the incident
    /// direction. A lobe gives this value only for a cosine that is not
    /// zero.
    Transmitted {
        t: Spectrum,
        reflectance: Scalar,
        eta_i: Scalar,
        eta_t: Scalar,
        compressed: bool,
        cos_i: Scalar,
    },
}

/// A probability density over incident directions.
#[derive(Clone, Copy, Debug, PartialEq, Eq, Structural)]
pub enum Density {
    /// The direction is never drawn.
    Zero,
    /// The weight 1 of a direction that is chosen without chance.
    One,
    /// The given absolute cosine divided by pi.
    CosineOverPi(Scalar),
    /// The given number itself: the probability of a branch that is taken
    /// with the reflectance of the interface.
    Weight(Scalar),
    /// One less the given number: the probability of the branch that is
    /// taken otherwise.
    Complement(Scalar),
}

/// The density with which cosine-weighted hemisphere sampling around the
/// side of `wo` draws `wi`.
pub open spec fn cosine_density(wo: Vector3, wi: Vector3) -> Density {
    if wo.z.product_positive(wi.z) {
        Density::CosineOverPi(wi.z.absolute())
    } else {
        Density::Zero
    }
}

/// The direction that cosine-weighted sampling returns for `wo`, given a
/// draw `sampled` from the upper hemisphere: mirrored below the surface
/// when `wo` is below it.
pub open spec fn mirrored_to_side(wo: Vector3, sampled: Vector3) -> Vector3 {
    if wo.z.negative() {
        Vector3 { x: sampled.x, y: sampled.y, z: sampled.z.negated() }
    } else {
        sampled
    }
}

/// The density of cosine-weighted hemisphere sampling.
pub fn cosine_hemisphere_pdf(wo: &Vector3, wi: &Vector3) -> (d: Density)
    ensures
        d == cosine_density(*wo, *wi),
{
    if same_hemisphere(wo, wi) {
        Density::CosineOverPi(abs_cos_theta(wi))
    } else {
        Density::Zero
    }
}

/// Moves a draw from the upper hemisphere to the side of `wo`, and gives
/// the density of the result.
pub fn cosine_hemisphere_sample(wo: &Vector3, wi: &mut Vector3) -> (d: Density)
    ensures
        *final(wi) == mirrored_to_side(*wo, *old(wi)),
        d == cosine_density(*wo, *final(wi)),
{
    if wo.z.is_negative() {
        wi.z = wi.z.neg();
    }
    cosine_hemisphere_pdf(wo, wi)
}

/// The reflectance of a perfectly smooth interface that reflects all light.
#[derive(Clone, Copy, Debug, PartialEq, Eq, Structural)]
pub struct FresnelNoOp {}

/// The reflectance of an interface between two dielectrics, given by their
/// indices of refraction.
#[derive(Clone, Copy, Debug, PartialEq, Eq, Structural)]
pub struct FresnelDielectric {
    pub eta_i: Scalar,
    pub eta_t: Scalar,
}

impl FresnelDielectric {
    pub fn new(eta_i: Scalar, eta_t: Scalar) -> (f: FresnelDielectric)
        ensures
            f == (FresnelDielectric { eta_i, eta_t }),
    {
        FresnelDielectric { eta_i, eta_t }
    }
}

/// The reflectance of an interface between a dielectric and a conductor,
/// given by the indices of refraction and the absorption coefficient.
#[derive(Clone, Copy, Debug, PartialEq, Eq, Structural)]
pub struct FresnelConductor {
    pub eta_i: Spectrum,
    pub eta_t: Spectrum,
    pub k: Spectrum,
}

/// A Fresnel term.
#[derive(Clone, Copy, Debug, PartialEq, Eq, Structural)]
pub enum Fresnel {
    NoOp(FresnelNoOp),
    Dielectric(FresnelDielectric),
    Conductor(FresnelConductor),
}

impl Fresnel {
    /// The reflectance, where it is the same at every angle.
    pub open spec fn constant(self) -> Option<Spectrum> {
        match self {
            Fresnel::NoOp(_) => Some(
                Spectrum {
                    r: Scalar { bits: crate::scalar::ONE_BITS },
                    g: Scalar { bits: crate::scalar::ONE_BITS },
                    b: Scalar { bits: crate::scalar::ONE_BITS },
                },
            ),
            _ => None,
        }
    }

    /// The reflectance of a term that does not depend on the angle; `None`
    /// where the host has to evaluate the term.
    pub fn constant_reflectance(&self) -> (r: Option<Spectrum>)
        ensures
            r == self.constant(),
    {
        match self {
            Fresnel::NoOp(_) => Some(Spectrum::new(Scalar::one())),
            _ => None,
        }
    }
}

/// What every lobe offers.
pub trait BxDFInterface {
    /// The properties of the lobe.
    spec fn flags(&self) -> Set<LobeFlag>;

    /// The value of the lobe for light arriving from `wi` and leaving
    /// towards `wo`, as continuous sampling sees it.
    spec fn value(&self, wo: Vector3, wi: Vector3) -> LobeValue;

    /// Whether directions are drawn by cosine-weighted hemisphere sampling;
    /// otherwise the lobe is a delta distribution.
    spec fn cosine_sampled(&self) -> bool;

    /// The value for light arriving from `wi` and leaving towards `wo`.
    fn f(&self, wo: &Vector3, wi: &Vector3) -> (v: LobeValue)
        ensures
            v == self.value(*wo, *wi),
    ;

    /// The classification of the lobe.
    fn get_type(&self) -> (t: BxDFType)
        ensures
            t@ == self.flags(),
    ;

    /// Whether every property of the lobe is among `t`.
    fn matches_flags(&self, t: BxDFType) -> (r: bool)
        ensures
            r == self.flags().subset_of(t@),
    ;

    /// The density with which continuous sampling draws `wi` for `wo`.
    fn pdf(&self, wo: &Vector3, wi: &Vector3) -> (d: Density)
        ensures
            d == if self.cosine_sampled() {
                cosine_density(*wo, *wi)
            } else {
                Density::Zero
            },
    ;
}

/// The properties of a diffuse reflector.
pub open spec fn lambertian_flags() -> Set<LobeFlag> {
    Set::<LobeFlag>::empty().insert(LobeFlag::Reflection).insert(LobeFlag::Diffuse)
}

/// The properties of a mirror.
pub open spec fn specular_reflection_flags() -> Set<LobeFlag> {
    Set::<LobeFlag>::empty().insert(LobeFlag::Reflection).insert(LobeFlag::Specular)
}

/// The properties of a smooth refracting interface.
pub open spec fn specular_transmission_flags() -> Set<LobeFlag> {
    Set::<LobeFlag>::empty().insert(LobeFlag::Transmission).insert(LobeFlag::Specular)
}

/// The properties of a smooth interface that reflects and refracts.
pub open spec fn fresnel_specular_flags() -> Set<LobeFlag> {
    Set::<LobeFlag>::empty().insert(LobeFlag::Reflection).insert(LobeFlag::Transmission).insert(
        LobeFlag::Specular,
    )
}

fn flags_of_two(a: LobeFlag, b: LobeFlag) -> (t: BxDFType)
    ensures
        t@ == Set::<LobeFlag>::empty().insert(a).insert(b),
{
    let t = BxDFType::single(a).union(BxDFType::single(b));
    assert(t@ =~= Set::<LobeFlag>::empty().insert(a).insert(b));
    t
}

/// Ideal diffuse reflection: the same value `r / pi` in every direction.
#[derive(Clone, Copy, Debug, PartialEq, Eq, Structural)]
pub struct LambertianReflection {
    pub r: Spectrum,
}

impl LambertianReflection {
    pub fn new(r: Spectrum) -> (l: LambertianReflection)
        ensures
            l.r == r,
    {
        Self { r }
    }

    /// Draws an incident direction: `wi` holds a cosine-weighted draw from
    /// the upper hemisphere and is moved to the side of `wo`; `pdf` becomes
    /// the density of the result, the same that `pdf` gives for it.
    pub fn sample_f(
        &self,
        wo: &Vector3,
        wi: &mut Vector3,
        pdf: &mut Density,
        sampled_type: &mut Option<BxDFType>,
    ) -> (v: LobeValue)
        ensures
            *final(wi) == mirrored_to_side(*wo, *old(wi)),
            *final(pdf) == cosine_density(*wo, *final(wi)),
            *final(sampled_type) == *old(sampled_type),
            v == LobeValue::OverPi(self.r),
    {
        *pdf = cosine_hemisphere_sample(wo, wi);
        self.f(wo, wi)
    }

    /// The hemispherical-directional reflectance, in closed form: the
    /// reflectance itself, whatever the direction and the samples.
    pub fn rho(&self, wo: &Vector3, n_samples: usize, samples: &Vec<Point2>) -> (rho: Spectrum)
        ensures
            rho == self.r,
    {
        self.r
    }

    /// The hemispherical-hemispherical reflectance, in closed form: the
    /// reflectance itself, whatever the samples.
    pub fn rho_no_wo(&self, n_samples: usize, samples_1: &Vec<Point2>, samples_2: &Vec<Point2>) -> (rho:
        Spectrum)
        ensures
            rho == self.r,
    {
        self.r
    }
}

impl BxDFInterface for LambertianReflection {
    open spec fn flags(&self) -> Set<LobeFlag> {
        lambertian_flags()
    }

    open spec fn value(&self, wo: Vector3, wi: Vector3) -> LobeValue {
        LobeValue::OverPi(self.r)
    }

    open spec fn cosine_sampled(&self) -> bool {
        true
    }

    fn f(&self, wo: &Vector3, wi: &Vector3) -> (v: LobeValue) {
        LobeValue::OverPi(self.r)
    }

    fn get_type(&self) -> (t: BxDFType) {
        flags_of_two(LobeFlag::Reflection, LobeFlag::Diffuse)
    }

    fn matches_flags(&self, t: BxDFType) -> (r: bool) {
        t.contains(self.get_type())
    }

    fn pdf(&self, wo: &Vector3, wi: &Vector3) -> (d: Density) {
        cosine_hemisphere_pdf(wo, wi)
    }
}

/// The value of a diffuse reflector is the same for every pair of
/// directions, on whichever side of the surface they lie.
pub proof fn lambertian_value_ignores_directions(
    l: LambertianReflection,
    wo: Vector3,
    wi: Vector3,
    wo2: Vector3,
    wi2: Vector3,
)
    ensures
        l.value(wo, wi) == l.value(wo2, wi2),
        l.value(wo, wi) == LobeValue::OverPi(l.r),
{
}

/// The mirror image of `wo` about the shading normal.
pub open spec fn reflected(wo: Vector3) -> Vector3 {
    Vector3 { x: wo.x.negated(), y: wo.y.negated(), z: wo.z }
}

/// Perfect mirror reflection, weighted by a Fresnel term.
#[derive(Clone, Copy, Debug, PartialEq, Eq, Structural)]
pub struct SpecularReflection {
    pub r: Spectrum,
    pub fresnel: Fresnel,
}

impl SpecularReflection {
    /// The value of the mirror for light that leaves towards `wo` and
    /// arrives from its mirror image: the reflectance, weighted by the
    /// Fresnel term at the cosine of `wo` and divided by the absolute value
    /// of that cosine; zero where the cosine is zero.
    pub open spec fn mirrored_value(self, wo: Vector3) -> LobeValue {
        if wo.z.zero_valued() {
            LobeValue::Zero
        } else {
            LobeValue::FresnelOverCosine { r: self.r, fresnel: self.fresnel, cos_i: wo.z }
        }
    }

    pub fn new(r: Spectrum, fresnel: Fresnel) -> (l: SpecularReflection)
        ensures
            l == (SpecularReflection { r, fresnel }),
    {
        Self { r, fresnel }
    }

    /// Reflects `wo` about the shading normal into `wi`, without chance:
    /// the weight is 1 and the value is the Fresnel-weighted reflectance
    /// over the cosine of the reflected direction. A direction in the
    /// surface has a cosine of zero and nothing to divide by: the value is
    /// zero there.
    pub fn sample_f(
        &self,
        wo: &Vector3,
        wi: &mut Vector3,
        pdf: &mut Density,
        sampled_type: &mut Option<BxDFType>,
    ) -> (v: LobeValue)
        ensures
            *final(wi) == reflected(*wo),
            *final(pdf) == Density::One,
            *final(sampled_type) == *old(sampled_type),
            v == self.mirrored_value(*wo),
    {
        *wi = Vector3 { x: wo.x.neg(), y: wo.y.neg(), z: wo.z };
        *pdf = Density::One;
        if wo.z.is_zero() {
            LobeValue::Zero
        } else {
            LobeValue::FresnelOverCosine { r: self.r, fresnel: self.fresnel, cos_i: wi.z }
        }
    }
}

impl BxDFInterface for SpecularReflection {
    open spec fn flags(&self) -> Set<LobeFlag> {
        specular_reflection_flags()
    }

    open spec fn value(&self, wo: Vector3, wi: Vector3) -> LobeValue {
        LobeValue::Zero
    }

    open spec fn cosine_sampled(&self) -> bool {
        false
    }

    fn f(&self, wo: &Vector3, wi: &Vector3) -> (v: LobeValue) {
        LobeValue::Zero
    }

    fn get_type(&self) -> (t: BxDFType) {
        flags_of_two(LobeFlag::Reflection, LobeFlag::Specular)
    }

    fn matches_flags(&self, t: BxDFType) -> (r: bool) {
        t.contains(self.get_type())
    }

    fn pdf(&self, wo: &Vector3, wi: &Vector3) -> (d: Density) {
        Density::Zero
    }
}

/// Whether light that crosses an interface is compressed by the squared
/// ratio of the indices of refraction: radiance is, importance is not.
pub open spec fn compresses(mode: TransportMode) -> bool {
    mode == TransportMode::Radiance
}

/// The branch that a smooth dielectric interface takes for one sample.
#[derive(Clone, Copy, Debug, PartialEq, Eq, Structural)]
pub enum SpecularBranch {
    Reflection,
    Transmission,
}

/// The properties of the lobe that a branch samples.
pub open spec fn branch_flags(branch: SpecularBranch) -> Set<LobeFlag> {
    match branch {
        SpecularBranch::Reflection => specular_reflection_flags(),
        SpecularBranch::Transmission => specular_transmission_flags(),
    }
}

/// What a draw from a smooth interface gives: the incident direction, its
/// probability, the branch that was taken where one was, and the value.
#[derive(Clone, Copy, Debug, PartialEq, Eq, Structural)]
pub struct SpecularSample {
    pub wi: Vector3,
    pub pdf: Density,
    pub branch: Option<SpecularBranch>,
    pub value: LobeValue,
}

/// The indices of refraction on the side of `wo` and on the side beyond
/// the interface: `eta_a` lies above the surface, `eta_b` below it.
pub open spec fn oriented_indices(eta_a: Scalar, eta_b: Scalar, wo: Vector3) -> (Scalar, Scalar) {
    if wo.z.positive() {
        (eta_a, eta_b)
    } else {
        (eta_b, eta_a)
    }
}

/// The value of light that is refracted from `wi` towards `wo` through an
/// interface with the given reflectance: what the interface lets through,
/// compressed where radiance is carried, over the cosine of `wi`; zero
/// where that cosine is zero.
pub open spec fn transmitted_value(
    t: Spectrum,
    reflectance: Scalar,
    eta_a: Scalar,
    eta_b: Scalar,
    mode: TransportMode,
    wo: Vector3,
    wi: Vector3,
) -> LobeValue {
    if wi.z.zero_valued() {
        LobeValue::Zero
    } else {
        LobeValue::Transmitted {
            t,
            reflectance,
            eta_i: oriented_indices(eta_a, eta_b, wo).0,
            eta_t: oriented_indices(eta_a, eta_b, wo).1,
            compressed: compresses(mode),
            cos_i: wi.z,
        }
    }
}

fn transmitted(
    t: Spectrum,
    reflectance: Scalar,
    eta_a: Scalar,
    eta_b: Scalar,
    mode: TransportMode,
    wo: &Vector3,
    wi: &Vector3,
) -> (v: LobeValue)
    ensures
        v == transmitted_value(t, reflectance, eta_a, eta_b, mode, *wo, *wi),
{
    if wi.z.is_zero() {
        return LobeValue::Zero;
    }
    let (eta_i, eta_t) = if wo.z.is_positive() {
        (eta_a, eta_b)
    } else {
        (eta_b, eta_a)
    };
    let compressed = match mode {
        TransportMode::Radiance => true,
        TransportMode::Importance => false,
    };
    LobeValue::Transmitted { t, reflectance, eta_i, eta_t, compressed, cos_i: wi.z }
}

/// Perfect refraction through an interface between two dielectrics.
#[derive(Clone, Copy, Debug, PartialEq, Eq, Structural)]
pub struct SpecularTransmission {
    pub t: Spectrum,
    pub eta_a: Scalar,
    pub eta_b: Scalar,
    pub fresnel: FresnelDielectric,
    pub mode: TransportMode,
}

impl SpecularTransmission {
    pub fn new(t: Spectrum, eta_a: Scalar, eta_b: Scalar, mode: TransportMode) -> (l:
        SpecularTransmission)
        ensures
            l == (SpecularTransmission {
                t,
                eta_a,
                eta_b,
                fresnel: FresnelDielectric { eta_i: eta_a, eta_t: eta_b },
                mode,
            }),
    {
        Self { t, eta_a, eta_b, fresnel: FresnelDielectric::new(eta_a, eta_b), mode }
    }

    /// Whether the transmitted value is scaled by the squared ratio of the
    /// indices of refraction.
    pub fn scales_transmission(&self) -> (r: bool)
        ensures
            r == compresses(self.mode),
    {
        match self.mode {
            TransportMode::Radiance => true,
            TransportMode::Importance => false,
        }
    }

    /// What a draw gives for `wo`, where the host found the direction
    /// `refracted` by refracting `wo` and the reflectance of the interface
    /// at that direction: the refracted direction with weight 1 and the
    /// transmitted value. Where `wo` is reflected totally there is no
    /// refracted direction: the direction stays `wi`, and weight and value
    /// are zero.
    pub open spec fn sample_of(
        self,
        wo: Vector3,
        wi: Vector3,
        reflectance: Scalar,
        refracted: Option<Vector3>,
    ) -> SpecularSample {
        match refracted {
            Some(w) => SpecularSample {
                wi: w,
                pdf: Density::One,
                branch: None,
                value: transmitted_value(
                    self.t,
                    reflectance,
                    self.eta_a,
                    self.eta_b,
                    self.mode,
                    wo,
                    w,
                ),
            },
            None => SpecularSample {
                wi,
                pdf: Density::Zero,
                branch: None,
                value: LobeValue::Zero,
            },
        }
    }

    /// Refracts `wo` into `wi`, without chance. The host hands in the
    /// refracted direction, or `None` at total reflection, and the
    /// reflectance of the interface at the refracted direction.
    pub fn sample_f(
        &self,
        wo: &Vector3,
        wi: &mut Vector3,
        reflectance: &Scalar,
        refracted: &Option<Vector3>,
        pdf: &mut Density,
        sampled_type: &mut Option<BxDFType>,
    ) -> (v: LobeValue)
        ensures
            *final(wi) == self.sample_of(*wo, *old(wi), *reflectance, *refracted).wi,
            *final(pdf) == self.sample_of(*wo, *old(wi), *reflectance, *refracted).pdf,
            v == self.sample_of(*wo, *old(wi), *reflectance, *refracted).value,
            *final(sampled_type) == *old(sampled_type),
    {
        match refracted {
            Some(w) => {
                *wi = *w;
                *pdf = Density::One;
                transmitted(self.t, *reflectance, self.eta_a, self.eta_b, self.mode, wo, w)
            },
            None => {
                *pdf = Density::Zero;
                LobeValue::Zero
            },
        }
    }
}

impl BxDFInterface for SpecularTransmission {
    open spec fn flags(&self) -> Set<LobeFlag> {
        specular_transmission_flags()
    }

    open spec fn value(&self, wo: Vector3, wi: Vector3) -> LobeValue {
        LobeValue::Zero
    }

    open spec fn cosine_sampled(&self) -> bool {
        false
    }

    fn f(&self, wo: &Vector3, wi: &Vector3) -> (v: LobeValue) {
        LobeValue::Zero
    }

    fn get_type(&self) -> (t: BxDFType) {
        flags_of_two(LobeFlag::Transmission, LobeFlag::Specular)
    }

    fn matches_flags(&self, t: BxDFType) -> (r: bool) {
        t.contains(self.get_type())
    }

    fn pdf(&self, wo: &Vector3, wi: &Vector3) -> (d: Density) {
        Density::Zero
    }
}

/// A smooth dielectric interface that reflects or refracts, chosen by
/// chance in proportion to the Fresnel reflectance.
#[derive(Clone, Copy, Debug, PartialEq, Eq, Structural)]
pub struct FresnelSpecular {
    pub r: Spectrum,
    pub t: Spectrum,
    pub eta_a: Scalar,
    pub eta_b: Scalar,
    pub mode: TransportMode,
}

impl FresnelSpecular {
    pub fn new(r: Spectrum, t: Spectrum, eta_a: Scalar, eta_b: Scalar, mode: TransportMode) -> (l:
        FresnelSpecular)
        ensures
            l == (FresnelSpecular { r, t, eta_a, eta_b, mode }),
    {
        Self { r, t, eta_a, eta_b, mode }
    }

    /// The branch for the uniform sample `u`, given the Fresnel reflectance
    /// at the outgoing direction: reflection exactly when `u` is below the
    /// reflectance, so that reflection is drawn with that probability.
    pub fn choose_branch(&self, u: &Scalar, reflectance: &Scalar) -> (b: SpecularBranch)
        ensures
            b == SpecularBranch::Reflection <==> u.less(*reflectance),
    {
        if u.lt(reflectance) {
            SpecularBranch::Reflection
        } else {
            SpecularBranch::Transmission
        }
    }

    /// The properties of the lobe that a branch samples.
    pub fn sampled_type(&self, branch: SpecularBranch) -> (t: BxDFType)
        ensures
            t@ == branch_flags(branch),
    {
        match branch {
            SpecularBranch::Reflection => flags_of_two(LobeFlag::Reflection, LobeFlag::Specular),
            SpecularBranch::Transmission => flags_of_two(
                LobeFlag::Transmission,
                LobeFlag::Specular,
            ),
        }
    }

    /// Whether the transmitted value is scaled by the squared ratio of the
    /// indices of refraction.
    pub fn scales_transmission(&self) -> (r: bool)
        ensures
            r == compresses(self.mode),
    {
        match self.mode {
            TransportMode::Radiance => true,
            TransportMode::Importance => false,
        }
    }
}

impl FresnelSpecular {
    /// What a draw gives for `wo` and the sample `u`, where the host found
    /// the reflectance of the interface at `wo` and the direction
    /// `refracted` by refracting `wo`. Reflection is taken exactly when the
    /// first component of `u` is below the reflectance, and so with the
    /// reflectance as its probability; transmission has one less the
    /// reflectance. Reflection gives the mirror image of `wo` and the
    /// reflected value; transmission the refracted direction and the
    /// transmitted value. Where `wo` would be transmitted but is reflected
    /// totally, the direction stays `wi`, and probability and value are
    /// zero.
    pub open spec fn sample_of(
        self,
        wo: Vector3,
        wi: Vector3,
        u: Point2,
        reflectance: Scalar,
        refracted: Option<Vector3>,
    ) -> SpecularSample {
        if u.x.less(reflectance) {
            SpecularSample {
                wi: reflected(wo),
                pdf: Density::Weight(reflectance),
                branch: Some(SpecularBranch::Reflection),
                value: if wo.z.zero_valued() {
                    LobeValue::Zero
                } else {
                    LobeValue::Reflected { r: self.r, weight: reflectance, cos_i: wo.z }
                },
            }
        } else {
            match refracted {
                Some(w) => SpecularSample {
                    wi: w,
                    pdf: Density::Complement(reflectance),
                    branch: Some(SpecularBranch::Transmission),
                    value: transmitted_value(
                        self.t,
                        reflectance,
                        self.eta_a,
                        self.eta_b,
                        self.mode,
                        wo,
                        w,
                    ),
                },
                None => SpecularSample {
                    wi,
                    pdf: Density::Zero,
                    branch: None,
                    value: LobeValue::Zero,
                },
            }
        }
    }

    /// Draws an incident direction for `wo` from the sample `u`. The host
    /// hands in the reflectance of the interface at `wo` and the direction
    /// that refraction gives to `wo`, or `None` at total reflection. The
    /// branch that was taken is written to `sampled_type`; where none was,
    /// `sampled_type` stays.
    pub fn sample_f(
        &self,
        wo: &Vector3,
        wi: &mut Vector3,
        u: &Point2,
        reflectance: &Scalar,
        refracted: &Option<Vector3>,
        pdf: &mut Density,
        sampled_type: &mut Option<BxDFType>,
    ) -> (v: LobeValue)
        ensures
            *final(wi) == self.sample_of(*wo, *old(wi), *u, *reflectance, *refracted).wi,
            *final(pdf) == self.sample_of(*wo, *old(wi), *u, *reflectance, *refracted).pdf,
            v == self.sample_of(*wo, *old(wi), *u, *reflectance, *refracted).value,
            match self.sample_of(*wo, *old(wi), *u, *reflectance, *refracted).branch {
                Some(b) => *final(sampled_type) matches Some(t) && t@ == branch_flags(b),
                None => *final(sampled_type) == *old(sampled_type),
            },
    {
        match self.choose_branch(&u.x, reflectance) {
            SpecularBranch::Reflection => {
                *wi = Vector3 { x: wo.x.neg(), y: wo.y.neg(), z: wo.z };
                *pdf = Density::Weight(*reflectance);
                *sampled_type = Some(self.sampled_type(SpecularBranch::Reflection));
                if wo.z.is_zero() {
                    LobeValue::Zero
                } else {
                    LobeValue::Reflected { r: self.r, weight: *reflectance, cos_i: wo.z }
                }
            },
            SpecularBranch::Transmission => match refracted {
                Some(w) => {
                    *wi = *w;
                    *pdf = Density::Complement(*reflectance);
                    *sampled_type = Some(self.sampled_type(SpecularBranch::Transmission));
                    transmitted(self.t, *reflectance, self.eta_a, self.eta_b, self.mode, wo, w)
                },
                None => {
                    *pdf = Density::Zero;
                    LobeValue::Zero
                },
            },
        }
    }
}

impl BxDFInterface for FresnelSpecular {
    open spec fn flags(&self) -> Set<LobeFlag> {
        fresnel_specular_flags()
    }

    open spec fn value(&self, wo: Vector3, wi: Vector3) -> LobeValue {
        LobeValue::Zero
    }

    open spec fn cosine_sampled(&self) -> bool {
        false
    }

    fn f(&self, wo: &Vector3, wi: &Vector3) -> (v: LobeValue) {
        LobeValue::Zero
    }

    fn get_type(&self) -> (t: BxDFType) {
        let t = flags_of_two(LobeFlag::Reflection, LobeFlag::Transmission).union(
            BxDFType::single(LobeFlag::Specular),
        );
        assert(t@ =~= fresnel_specular_flags());
        t
    }

    fn matches_flags(&self, t: BxDFType) -> (r: bool) {
        t.contains(self.get_type())
    }

    fn pdf(&self, wo: &Vector3, wi: &Vector3) -> (d: Density) {
        Density::Zero
    }
}

/// The two branches of a smooth dielectric interface split by the
/// reflectance: reflection is taken exactly when the sample is below the
/// reflectance and has the reflectance as its probability; transmission,
/// where `wo` can be refracted, has one less the reflectance, so that the
/// two probabilities add up to one.
pub proof fn branches_split_by_reflectance(
    l: FresnelSpecular,
    wo: Vector3,
    wi: Vector3,
    u: Point2,
    reflectance: Scalar,
    refracted: Vector3,
)
    ensures
        l.sample_of(wo, wi, u, reflectance, Some(refracted)).branch == Some(
            SpecularBranch::Reflection,
        ) <==> u.x.less(reflectance),
        u.x.less(reflectance) ==> l.sample_of(wo, wi, u, reflectance, Some(refracted)).pdf
            == Density::Weight(reflectance) && l.sample_of(
            wo,
            wi,
            u,
            reflectance,
            Some(refracted),
        ).wi == reflected(wo),
        !u.x.less(reflectance) ==> l.sample_of(wo, wi, u, reflectance, Some(refracted)).pdf
            == Density::Complement(reflectance) && l.sample_of(
            wo,
            wi,
            u,
            reflectance,
            Some(refracted),
        ).wi == refracted,
{
}

/// Whether two values are the same but for compression: both are
/// transmitted values that agree in everything else, the first compressed
/// and the second not; or they are the same value of another kind.
pub open spec fn differ_by_compression(radiance: LobeValue, importance: LobeValue) -> bool {
    match importance {
        LobeValue::Transmitted { t, reflectance, eta_i, eta_t, compressed, cos_i } => !compressed
            && radiance == (LobeValue::Transmitted {
            t,
            reflectance,
            eta_i,
            eta_t,
            compressed: true,
            cos_i,
        }),
        other => radiance == other,
    }
}

/// Two interfaces that differ only in what is transported give, for the
/// same directions, sample and reflectance, the same direction, the same
/// probability and the same branch. What they reflect is the same; what
/// the one that carries radiance transmits is what the other transmits,
/// compressed by the squared ratio of the indices of refraction.
pub proof fn radiance_is_compressed_importance_is_not(
    a: FresnelSpecular,
    b: FresnelSpecular,
    wo: Vector3,
    wi: Vector3,
    u: Point2,
    reflectance: Scalar,
    refracted: Option<Vector3>,
)
    requires
        a.mode == TransportMode::Radiance,
        b.mode == TransportMode::Importance,
        a == (FresnelSpecular { mode: TransportMode::Radiance, ..b }),
    ensures
        a.sample_of(wo, wi, u, reflectance, refracted).wi == b.sample_of(
            wo,
            wi,
            u,
            reflectance,
            refracted,
        ).wi,
        a.sample_of(wo, wi, u, reflectance, refracted).pdf == b.sample_of(
            wo,
            wi,
            u,
            reflectance,
            refracted,
        ).pdf,
        a.sample_of(wo, wi, u, reflectance, refracted).branch == b.sample_of(
            wo,
            wi,
            u,
            reflectance,
            refracted,
        ).branch,
        differ_by_compression(
            a.sample_of(wo, wi, u, reflectance, refracted).value,
            b.sample_of(wo, wi, u, reflectance, refracted).value,
        ),
        a.sample_of(wo, wi, u, reflectance, refracted).branch == Some(SpecularBranch::Reflection)
            ==> a.sample_of(wo, wi, u, reflectance, refracted).value == b.sample_of(
            wo,
            wi,
            u,
            reflectance,
            refracted,
        ).value,
{
}

/// Two refracting lobes that differ only in what is transported give the
/// same direction with the same weight; what the one that carries radiance
/// transmits is what the other transmits, compressed by the squared ratio
/// of the indices of refraction.
pub proof fn transmission_is_compressed_for_radiance_only(
    a: SpecularTransmission,
    b: SpecularTransmission,
    wo: Vector3,
    wi: Vector3,
    reflectance: Scalar,
    refracted: Option<Vector3>,
)
    requires
        a.mode == TransportMode::Radiance,
        b.mode == TransportMode::Importance,
        a == (SpecularTransmission { mode: TransportMode::Radiance, ..b }),
    ensures
        a.sample_of(wo, wi, reflectance, refracted).wi == b.sample_of(
            wo,
            wi,
            reflectance,
            refracted,
        ).wi,
        a.sample_of(wo, wi, reflectance, refracted).pdf == b.sample_of(
            wo,
            wi,
            reflectance,
            refracted,
        ).pdf,
        differ_by_compression(
            a.sample_of(wo, wi, reflectance, refracted).value,
            b.sample_of(wo, wi, reflectance, refracted).value,
        ),
{
}

/// A scattering lobe.
#[derive(Clone, Copy, Debug, PartialEq, Eq, Structural)]
pub enum BxDF {
    Lambertian(LambertianReflection),
    SpecularReflection(SpecularReflection),
    SpecularTransmission(SpecularTransmission),
    FresnelSpecular(FresnelSpecular),
}

impl BxDF {
    /// The reflectance of the lobe in closed form, where it has one.
    pub open spec fn closed_form(self) -> Option<Spectrum> {
        match self {
            BxDF::Lambertian(l) => Some(l.r),
            _ => None,
        }
    }

    /// The hemispherical reflectance of the lobe where it is known in
    /// closed form; `None` where it has to be estimated from samples.
    pub fn closed_form_rho(&self) -> (rho: Option<Spectrum>)
        ensures
            rho == self.closed_form(),
    {
        match self {
            BxDF::Lambertian(l) => Some(l.r),
            _ => None,
        }
    }
}

impl BxDFInterface for BxDF {
    open spec fn flags(&self) -> Set<LobeFlag> {
        match self {
            BxDF::Lambertian(l) => l.flags(),
            BxDF::SpecularReflection(l) => l.flags(),
            BxDF::SpecularTransmission(l) => l.flags(),
            BxDF::FresnelSpecular(l) => l.flags(),
        }
    }

    open spec fn value(&self, wo: Vector3, wi: Vector3) -> LobeValue {
        match self {
            BxDF::Lambertian(l) => l.value(wo, wi),
            BxDF::SpecularReflection(l) => l.value(wo, wi),
            BxDF::SpecularTransmission(l) => l.value(wo, wi),
            BxDF::FresnelSpecular(l) => l.value(wo, wi),
        }
    }

    open spec fn cosine_sampled(&self) -> bool {
        match self {
            BxDF::Lambertian(l) => l.cosine_sampled(),
            BxDF::SpecularReflection(l) => l.cosine_sampled(),
            BxDF::SpecularTransmission(l) => l.cosine_sampled(),
            BxDF::FresnelSpecular(l) => l.cosine_sampled(),
        }
    }

    fn f(&self, wo: &Vector3, wi: &Vector3) -> (v: LobeValue) {
        match self {
            BxDF::Lambertian(l) => l.f(wo, wi),
            BxDF::SpecularReflection(l) => l.f(wo, wi),
            BxDF::SpecularTransmission(l) => l.f(wo, wi),
            BxDF::FresnelSpecular(l) => l.f(wo, wi),
        }
    }

    fn get_type(&self) -> (t: BxDFType) {
        match self {
            BxDF::Lambertian(l) => l.get_type(),
            BxDF::SpecularReflection(l) => l.get_type(),
            BxDF::SpecularTransmission(l) => l.get_type(),
            BxDF::FresnelSpecular(l) => l.get_type(),
        }
    }

    fn matches_flags(&self, t: BxDFType) -> (r: bool) {
        t.contains(self.get_type())
    }

    fn pdf(&self, wo: &Vector3, wi: &Vector3) -> (d: Density) {
        match self {
            BxDF::Lambertian(l) => l.pdf(wo, wi),
            BxDF::SpecularReflection(l) => l.pdf(wo, wi),
            BxDF::SpecularTransmission(l) => l.pdf(wo, wi),
            BxDF::FresnelSpecular(l) => l.pdf(wo, wi),
        }
    }
}

} // verus!
