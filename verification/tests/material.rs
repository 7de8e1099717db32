use pathtracer::bsdf::{ScatteringFrame, BSDF, MAX_BXDFS};
use pathtracer::bxdf::{
    BxDF, Density, Fresnel, FresnelNoOp, FresnelSpecular, LambertianReflection, LobeValue,
    SpecularReflection,
};
use pathtracer::flags::{BxDFType, LobeFlag};
use pathtracer::geometry::{Point2, Point3, Vector3};
use pathtracer::interaction::{
    PerturbedFrame, Shading, SurfaceMediumInteraction, TextureSamples,
};
use pathtracer::material::{
    bump_mapping, normal_mapping, with_normal, DisneyMaterial, GlassMaterial, Material,
    MaterialInterface, MatteMaterial, MirrorMaterial, NormalMaterial,
};
use pathtracer::scalar::Scalar;
use pathtracer::spectrum::Spectrum;
use pathtracer::texture::{ScalarTexture, SpectrumTexture};
use pathtracer::TransportMode;

fn s(x: f32) -> Scalar {
    Scalar::from_bits(x.to_bits())
}

fn v(x: f32, y: f32, z: f32) -> Vector3 {
    Vector3::new(s(x), s(y), s(z))
}

fn grey(x: f32) -> Spectrum {
    Spectrum::new(s(x))
}

fn surface_point() -> SurfaceMediumInteraction {
    SurfaceMediumInteraction {
        p: Point3::new(s(1.0), s(2.0), s(3.0)),
        time: s(0.25),
        wo: v(0.0, 0.0, 1.0),
        n: v(0.0, 0.0, 1.0),
        uv: Point2::new(s(0.5), s(0.5)),
        dpdu: v(1.0, 0.0, 0.0),
        dpdv: v(0.0, 1.0, 0.0),
        shading: Shading { n: v(0.0, 0.6, 0.8), dpdu: v(1.0, 0.0, 0.0), dpdv: v(0.0, 0.8, -0.6) },
        bsdf: None,
        texels: TextureSamples::new(),
    }
}

fn frame_of(si: &SurfaceMediumInteraction, eta: f32) -> ScatteringFrame {
    ScatteringFrame {
        eta: s(eta),
        ns: si.shading.n,
        ng: si.n,
        ss: si.shading.dpdu,
        ts: si.shading.dpdv,
    }
}

fn lobes_of(b: &BSDF) -> Vec<BxDF> {
    (0..b.len()).map(|i| *b.get(i)).collect()
}

fn untouched_but_for_scattering(a: &SurfaceMediumInteraction, b: &SurfaceMediumInteraction) {
    assert_eq!(a.p, b.p);
    assert_eq!(a.time, b.time);
    assert_eq!(a.wo, b.wo);
    assert_eq!(a.n, b.n);
    assert_eq!(a.uv, b.uv);
    assert_eq!(a.dpdu, b.dpdu);
    assert_eq!(a.dpdv, b.dpdv);
    assert_eq!(a.texels.spectra, b.texels.spectra);
    assert_eq!(a.texels.scalars, b.texels.scalars);
    assert_eq!(a.texels.frames, b.texels.frames);
}

#[test]
fn a_new_scattering_takes_the_frame_of_the_point() {
    let si = surface_point();
    let b = BSDF::new(&si, s(1.5));
    assert_eq!(b.len(), 0);
    assert_eq!(b.basis(), frame_of(&si, 1.5));
    assert_eq!(b.num_components(BxDFType::all()), 0);
    assert!(b.f(&v(0.0, 0.0, 1.0), &v(0.0, 0.0, 1.0), BxDFType::all()).is_empty());
}

#[test]
fn lobes_are_kept_in_order_up_to_the_capacity() {
    let si = surface_point();
    let mut b = BSDF::new(&si, s(1.0));
    assert_eq!(MAX_BXDFS, 8);
    for i in 0..MAX_BXDFS {
        assert_eq!(b.len(), i);
        b.add(BxDF::Lambertian(LambertianReflection::new(grey(i as f32))));
    }
    assert_eq!(b.len(), MAX_BXDFS);
    for i in 0..MAX_BXDFS {
        assert_eq!(*b.get(i), BxDF::Lambertian(LambertianReflection::new(grey(i as f32))));
    }
    assert_eq!(b.basis(), frame_of(&si, 1.0));
}

#[test]
fn scattering_filters_its_lobes_by_flags() {
    let si = surface_point();
    let mut b = BSDF::new(&si, s(1.0));
    let mirror = SpecularReflection::new(grey(1.0), Fresnel::NoOp(FresnelNoOp {}));
    b.add(BxDF::Lambertian(LambertianReflection::new(grey(0.25))));
    b.add(BxDF::SpecularReflection(mirror));
    b.add(BxDF::Lambertian(LambertianReflection::new(grey(0.5))));
    let diffuse =
        BxDFType::single(LobeFlag::Diffuse).union(BxDFType::single(LobeFlag::Reflection));
    let specular =
        BxDFType::single(LobeFlag::Specular).union(BxDFType::single(LobeFlag::Reflection));
    assert_eq!(b.num_components(BxDFType::all()), 3);
    assert_eq!(b.num_components(diffuse), 2);
    assert_eq!(b.num_components(specular), 1);
    assert_eq!(b.num_components(BxDFType::single(LobeFlag::Diffuse)), 0);
    let wo = v(0.0, 0.6, 0.8);
    let wi = v(0.6, 0.0, 0.8);
    assert_eq!(
        b.f(&wo, &wi, BxDFType::all()),
        vec![LobeValue::OverPi(grey(0.25)), LobeValue::Zero, LobeValue::OverPi(grey(0.5))]
    );
    assert_eq!(
        b.f(&wo, &wi, diffuse),
        vec![LobeValue::OverPi(grey(0.25)), LobeValue::OverPi(grey(0.5))]
    );
    assert_eq!(b.f(&wo, &wi, specular), vec![LobeValue::Zero]);
    assert_eq!(
        b.pdf(&wo, &wi, BxDFType::all()),
        vec![Density::CosineOverPi(s(0.8)), Density::Zero, Density::CosineOverPi(s(0.8))]
    );
    assert_eq!(b.pdf(&wo, &v(0.6, 0.0, -0.8), diffuse), vec![Density::Zero, Density::Zero]);
}

#[test]
fn the_lobe_to_sample_is_counted_among_the_matching_ones() {
    let si = surface_point();
    let mut b = BSDF::new(&si, s(1.0));
    let mirror = SpecularReflection::new(grey(1.0), Fresnel::NoOp(FresnelNoOp {}));
    b.add(BxDF::Lambertian(LambertianReflection::new(grey(0.25))));
    b.add(BxDF::SpecularReflection(mirror));
    b.add(BxDF::Lambertian(LambertianReflection::new(grey(0.5))));
    let diffuse =
        BxDFType::single(LobeFlag::Diffuse).union(BxDFType::single(LobeFlag::Reflection));
    let specular =
        BxDFType::single(LobeFlag::Specular).union(BxDFType::single(LobeFlag::Reflection));
    assert_eq!(b.matching_component(BxDFType::all(), 0), Some(0));
    assert_eq!(b.matching_component(BxDFType::all(), 1), Some(1));
    assert_eq!(b.matching_component(BxDFType::all(), 2), Some(2));
    assert_eq!(b.matching_component(BxDFType::all(), 3), None);
    assert_eq!(b.matching_component(diffuse, 0), Some(0));
    assert_eq!(b.matching_component(diffuse, 1), Some(2));
    assert_eq!(b.matching_component(diffuse, 2), None);
    assert_eq!(b.matching_component(specular, 0), Some(1));
    assert_eq!(b.matching_component(specular, 1), None);
    assert_eq!(b.matching_component(BxDFType::empty(), 0), None);
}

#[test]
fn matte_gives_one_lambertian_lobe() {
    let mut si = surface_point();
    let before = si.clone();
    let m = MatteMaterial::new(SpectrumTexture::Constant(grey(0.5)));
    m.compute_scattering_functions(&mut si, TransportMode::Radiance);
    let b = si.bsdf.as_ref().unwrap();
    assert_eq!(lobes_of(b), vec![BxDF::Lambertian(LambertianReflection::new(grey(0.5)))]);
    assert_eq!(b.basis(), frame_of(&before, 1.0));
    assert_eq!(si.shading, before.shading);
    untouched_but_for_scattering(&si, &before);
}

#[test]
fn matte_reads_the_sample_of_its_image() {
    let mut si = surface_point();
    si.texels.spectra = vec![grey(0.1), grey(0.7)];
    let m = MatteMaterial::new(SpectrumTexture::Image(1));
    m.compute_scattering_functions(&mut si, TransportMode::Radiance);
    assert_eq!(
        lobes_of(si.bsdf.as_ref().unwrap()),
        vec![BxDF::Lambertian(LambertianReflection::new(grey(0.7)))]
    );
}

#[test]
fn a_missing_sample_shows_as_the_default() {
    // No sample for the slot: the diffuse colour is black.
    let mut si = surface_point();
    si.texels.spectra = vec![grey(0.1), grey(0.7)];
    MatteMaterial::new(SpectrumTexture::Image(2))
        .compute_scattering_functions(&mut si, TransportMode::Radiance);
    assert_eq!(
        lobes_of(si.bsdf.as_ref().unwrap()),
        vec![BxDF::Lambertian(LambertianReflection::new(grey(0.0)))]
    );

    // No sample of the index of refraction: it is zero.
    let mut si = surface_point();
    let before = si.clone();
    GlassMaterial::new(
        SpectrumTexture::Constant(grey(1.0)),
        SpectrumTexture::Image(0),
        ScalarTexture::Image(0),
    )
    .compute_scattering_functions(&mut si, TransportMode::Radiance);
    let b = si.bsdf.as_ref().unwrap();
    assert_eq!(
        lobes_of(b),
        vec![BxDF::FresnelSpecular(FresnelSpecular::new(
            grey(1.0),
            grey(0.0),
            s(1.0),
            s(0.0),
            TransportMode::Radiance
        ))]
    );
    assert_eq!(b.basis(), frame_of(&before, 0.0));

    // No sample of the normal map: the shading frame stays.
    let mut si = surface_point();
    let before = si.clone();
    normal_mapping(0, &mut si);
    assert_eq!(si.shading, before.shading);
    let m = with_normal(
        Material::Matte(MatteMaterial::new(SpectrumTexture::Constant(grey(0.5)))),
        Some(4),
    );
    m.compute_scattering_functions(&mut si, TransportMode::Radiance);
    assert_eq!(si.shading, before.shading);
    assert_eq!(si.bsdf.as_ref().unwrap().basis(), frame_of(&before, 1.0));
}

#[test]
fn mirror_gives_one_white_specular_lobe() {
    let mut si = surface_point();
    let before = si.clone();
    MirrorMaterial::new().compute_scattering_functions(&mut si, TransportMode::Importance);
    let b = si.bsdf.as_ref().unwrap();
    assert_eq!(
        lobes_of(b),
        vec![BxDF::SpecularReflection(SpecularReflection::new(
            grey(1.0),
            Fresnel::NoOp(FresnelNoOp {})
        ))]
    );
    assert_eq!(b.basis(), frame_of(&before, 1.0));
    untouched_but_for_scattering(&si, &before);
}

#[test]
fn glass_gives_one_lobe_for_reflection_and_transmission() {
    for mode in [TransportMode::Radiance, TransportMode::Importance] {
        let mut si = surface_point();
        let before = si.clone();
        let m = GlassMaterial::new(
            SpectrumTexture::Constant(grey(0.9)),
            SpectrumTexture::Constant(grey(0.0)),
            ScalarTexture::Constant(s(1.5)),
        );
        m.compute_scattering_functions(&mut si, mode);
        let b = si.bsdf.as_ref().unwrap();
        assert_eq!(
            lobes_of(b),
            vec![BxDF::FresnelSpecular(FresnelSpecular::new(
                grey(0.9),
                grey(0.0),
                s(1.0),
                s(1.5),
                mode
            ))]
        );
        assert_eq!(b.basis(), frame_of(&before, 1.5));
    }
}

#[test]
fn black_glass_writes_a_fresh_scattering_without_lobes() {
    let mut si = surface_point();
    let before = si.clone();
    let m = GlassMaterial::new(
        SpectrumTexture::Constant(grey(0.0)),
        SpectrumTexture::Constant(Spectrum::from_floats(s(0.0), s(-0.0), s(0.0))),
        ScalarTexture::Constant(s(1.5)),
    );
    m.compute_scattering_functions(&mut si, TransportMode::Radiance);
    let b = si.bsdf.as_ref().unwrap();
    assert_eq!(b.len(), 0);
    assert_eq!(b.basis(), frame_of(&before, 1.5));
    assert_eq!(b.num_components(BxDFType::all()), 0);
    assert!(b.f(&v(0.0, 0.0, 1.0), &v(0.0, 0.0, 1.0), BxDFType::all()).is_empty());
    untouched_but_for_scattering(&si, &before);

    // No scattering of an earlier material survives.
    MatteMaterial::new(SpectrumTexture::Constant(grey(0.5)))
        .compute_scattering_functions(&mut si, TransportMode::Radiance);
    assert_eq!(si.bsdf.as_ref().unwrap().len(), 1);
    m.compute_scattering_functions(&mut si, TransportMode::Radiance);
    let b = si.bsdf.as_ref().unwrap();
    assert_eq!(b.len(), 0);
    assert_eq!(b.basis(), frame_of(&before, 1.5));
}

fn frame(cross: f32) -> PerturbedFrame {
    PerturbedFrame {
        ns: v(0.0, 0.0, 1.0),
        cross_norm_squared: s(cross),
        aligned_ss: v(1.0, 0.0, 0.0),
        aligned_ts: v(0.0, 1.0, 0.0),
        arbitrary_ss: v(0.0, -1.0, 0.0),
        arbitrary_ts: v(1.0, 0.0, 0.0),
    }
}

#[test]
fn normal_mapping_aligns_the_tangents_where_it_can() {
    let mut si = surface_point();
    si.texels.frames = vec![frame(0.0), frame(1.0)];
    let before = si.clone();
    normal_mapping(1, &mut si);
    assert_eq!(
        si.shading,
        Shading { n: v(0.0, 0.0, 1.0), dpdu: v(1.0, 0.0, 0.0), dpdv: v(0.0, 1.0, 0.0) }
    );
    assert_eq!(si.n, before.n);
    assert!(si.bsdf.is_none());
    untouched_but_for_scattering(&si, &before);
}

#[test]
fn normal_mapping_falls_back_on_a_degenerate_tangent() {
    for cross in [0.0f32, -0.0, f32::NAN] {
        let mut si = surface_point();
        si.texels.frames = vec![frame(cross)];
        normal_mapping(0, &mut si);
        assert_eq!(
            si.shading,
            Shading { n: v(0.0, 0.0, 1.0), dpdu: v(0.0, -1.0, 0.0), dpdv: v(1.0, 0.0, 0.0) }
        );
        assert_eq!(si.n, v(0.0, 0.0, 1.0));
    }
}

#[test]
fn a_flat_normal_map_keeps_the_shading_frame() {
    let mut si = surface_point();
    si.texels.frames = vec![PerturbedFrame {
        ns: si.shading.n,
        cross_norm_squared: s(1.0),
        aligned_ss: si.shading.dpdu,
        aligned_ts: si.shading.dpdv,
        arbitrary_ss: v(0.0, 0.0, 0.0),
        arbitrary_ts: v(0.0, 0.0, 0.0),
    }];
    let before = si.clone();
    normal_mapping(0, &mut si);
    assert_eq!(si.shading, before.shading);
}

#[test]
fn bump_mapping_leaves_the_point_alone() {
    let mut si = surface_point();
    let before = si.clone();
    bump_mapping(&ScalarTexture::Constant(s(0.5)), &mut si);
    assert_eq!(si.shading, before.shading);
    assert!(si.bsdf.is_none());
    untouched_but_for_scattering(&si, &before);
}

#[test]
fn a_normal_mapped_material_perturbs_then_delegates() {
    let mut si = surface_point();
    si.texels.frames = vec![frame(1.0)];
    let before = si.clone();
    let inner = Material::Matte(MatteMaterial::new(SpectrumTexture::Constant(grey(0.5))));
    let m = with_normal(inner, Some(0));
    assert!(m.is_compiled_here());
    m.compute_scattering_functions(&mut si, TransportMode::Radiance);
    let perturbed =
        Shading { n: v(0.0, 0.0, 1.0), dpdu: v(1.0, 0.0, 0.0), dpdv: v(0.0, 1.0, 0.0) };
    assert_eq!(si.shading, perturbed);
    let b = si.bsdf.as_ref().unwrap();
    assert_eq!(
        b.basis(),
        ScatteringFrame {
            eta: s(1.0),
            ns: perturbed.n,
            ng: before.n,
            ss: perturbed.dpdu,
            ts: perturbed.dpdv
        }
    );
    assert_eq!(lobes_of(b), vec![BxDF::Lambertian(LambertianReflection::new(grey(0.5)))]);
    assert_eq!(si.n, before.n);
}

#[test]
fn with_normal_wraps_only_where_there_is_a_map() {
    let matte = || Material::Matte(MatteMaterial::new(SpectrumTexture::Constant(grey(0.5))));
    assert_eq!(with_normal(matte(), None), matte());
    assert_eq!(
        with_normal(matte(), Some(3)),
        Material::Normal(NormalMaterial::new(3, Box::new(matte())))
    );
}

#[test]
fn every_material_but_the_principled_one_is_compiled_here() {
    let glass = Material::Glass(GlassMaterial::new(
        SpectrumTexture::Image(0),
        SpectrumTexture::Constant(grey(1.0)),
        ScalarTexture::Image(0),
    ));
    assert!(glass.is_compiled_here());
    assert!(Material::Mirror(MirrorMaterial::new()).is_compiled_here());
    assert!(Material::Matte(MatteMaterial::new(SpectrumTexture::Image(7))).is_compiled_here());
    assert!(with_normal(Material::Mirror(MirrorMaterial::new()), Some(0)).is_compiled_here());
    let disney = || {
        Material::Disney(DisneyMaterial::new(
            SpectrumTexture::Constant(grey(1.0)),
            ScalarTexture::Constant(s(0.0)),
            ScalarTexture::Constant(s(1.5)),
            ScalarTexture::Constant(s(0.5)),
        ))
    };
    assert!(!disney().is_compiled_here());
    assert!(!with_normal(disney(), Some(0)).is_compiled_here());
}

#[test]
fn computing_twice_is_computing_once() {
    let materials = [
        Material::Matte(MatteMaterial::new(SpectrumTexture::Constant(grey(0.5)))),
        Material::Mirror(MirrorMaterial::new()),
        Material::Glass(GlassMaterial::new(
            SpectrumTexture::Constant(grey(1.0)),
            SpectrumTexture::Constant(grey(1.0)),
            ScalarTexture::Constant(s(1.5)),
        )),
        with_normal(
            Material::Matte(MatteMaterial::new(SpectrumTexture::Constant(grey(0.5)))),
            Some(0),
        ),
    ];
    for m in materials {
        let mut si = surface_point();
        si.texels.frames = vec![frame(1.0)];
        m.compute_scattering_functions(&mut si, TransportMode::Radiance);
        let once = si.clone();
        m.compute_scattering_functions(&mut si, TransportMode::Radiance);
        assert_eq!(si.shading, once.shading);
        let (a, b) = (once.bsdf.as_ref().unwrap(), si.bsdf.as_ref().unwrap());
        assert_eq!(lobes_of(a), lobes_of(b));
        assert_eq!(a.basis(), b.basis());
        untouched_but_for_scattering(&si, &once);
    }
}
