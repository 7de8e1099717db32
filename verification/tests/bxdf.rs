use pathtracer::bxdf::{
    abs_cos_theta, cos_theta, cosine_hemisphere_pdf, cosine_hemisphere_sample, same_hemisphere,
    BxDF, BxDFInterface, Density, Fresnel, FresnelDielectric, FresnelNoOp, FresnelSpecular,
    LambertianReflection, LobeValue, SpecularBranch, SpecularReflection, SpecularTransmission,
};

fn f(x: Scalar) -> f32 {
    f32::from_bits(x.to_bits())
}

/// The red component of a value, as the descriptions say it is computed.
fn red(value: LobeValue) -> f32 {
    match value {
        LobeValue::Zero => 0.0,
        LobeValue::OverPi(r) => f(r.r) * std::f32::consts::FRAC_1_PI,
        LobeValue::Reflected { r, weight, cos_i } => f(r.r) * f(weight) / f(cos_i).abs(),
        LobeValue::Transmitted { t, reflectance, eta_i, eta_t, compressed, cos_i } => {
            let ratio = if compressed { (f(eta_i) / f(eta_t)).powi(2) } else { 1.0 };
            f(t.r) * (1.0 - f(reflectance)) * ratio / f(cos_i).abs()
        }
        LobeValue::FresnelOverCosine { .. } => panic!("not used here"),
    }
}

fn probability(d: Density) -> f32 {
    match d {
        Density::Zero => 0.0,
        Density::One => 1.0,
        Density::CosineOverPi(c) => f(c) * std::f32::consts::FRAC_1_PI,
        Density::Weight(w) => f(w),
        Density::Complement(w) => 1.0 - f(w),
    }
}
use pathtracer::flags::{
    BxDFType, LobeFlag, BSDF_DIFFUSE, BSDF_REFLECTION, BSDF_SPECULAR, BSDF_TRANSMISSION,
};
use pathtracer::geometry::{Point2, Vector3};
use pathtracer::scalar::Scalar;
use pathtracer::spectrum::Spectrum;
use pathtracer::TransportMode;

fn s(x: f32) -> Scalar {
    Scalar::from_bits(x.to_bits())
}

fn v(x: f32, y: f32, z: f32) -> Vector3 {
    Vector3::new(s(x), s(y), s(z))
}

fn rgb(r: f32, g: f32, b: f32) -> Spectrum {
    Spectrum::from_floats(s(r), s(g), s(b))
}

fn lobes() -> Vec<BxDF> {
    vec![
        BxDF::Lambertian(LambertianReflection::new(rgb(0.2, 0.4, 0.6))),
        BxDF::SpecularReflection(SpecularReflection::new(
            rgb(1.0, 1.0, 1.0),
            Fresnel::NoOp(FresnelNoOp {}),
        )),
        BxDF::SpecularTransmission(SpecularTransmission::new(
            rgb(1.0, 1.0, 1.0),
            s(1.0),
            s(1.5),
            TransportMode::Radiance,
        )),
        BxDF::FresnelSpecular(FresnelSpecular::new(
            rgb(1.0, 1.0, 1.0),
            rgb(1.0, 1.0, 1.0),
            s(1.0),
            s(1.5),
            TransportMode::Importance,
        )),
    ]
}

#[test]
fn cosines_read_the_z_component() {
    let w = v(0.3, -0.4, -0.5);
    assert_eq!(cos_theta(&w), s(-0.5));
    assert_eq!(abs_cos_theta(&w), s(0.5));
}

#[test]
fn same_hemisphere_goes_by_the_sign_of_z() {
    assert!(same_hemisphere(&v(0.0, 0.0, 1.0), &v(1.0, 0.0, 0.2)));
    assert!(same_hemisphere(&v(0.0, 0.0, -1.0), &v(1.0, 0.0, -0.2)));
    assert!(!same_hemisphere(&v(0.0, 0.0, 1.0), &v(1.0, 0.0, -0.2)));
    assert!(!same_hemisphere(&v(0.0, 0.0, -1.0), &v(1.0, 0.0, 0.2)));
    assert!(!same_hemisphere(&v(0.0, 0.0, 0.0), &v(1.0, 0.0, 0.2)));
    assert!(!same_hemisphere(&v(0.0, 0.0, f32::NAN), &v(1.0, 0.0, 0.2)));
    // Both above the surface, but so close to it that the product vanishes.
    assert!(!same_hemisphere(&v(0.0, 0.0, 1.0e-30), &v(0.0, 0.0, 1.0e-30)));
}

#[test]
fn types_are_the_documented_ones() {
    let expected = [
        BSDF_REFLECTION | BSDF_DIFFUSE,
        BSDF_REFLECTION | BSDF_SPECULAR,
        BSDF_TRANSMISSION | BSDF_SPECULAR,
        BSDF_REFLECTION | BSDF_TRANSMISSION | BSDF_SPECULAR,
    ];
    for (lobe, bits) in lobes().iter().zip(expected) {
        assert_eq!(lobe.get_type().bits(), bits);
    }
    assert_eq!(
        LambertianReflection::new(rgb(1.0, 1.0, 1.0)).get_type().bits(),
        BSDF_REFLECTION | BSDF_DIFFUSE
    );
}

#[test]
fn matches_flags_is_the_subset_test() {
    for lobe in lobes() {
        let own = lobe.get_type().bits();
        for bits in 0..=31u32 {
            let t = BxDFType::from_bits(bits).unwrap();
            assert_eq!(lobe.matches_flags(t), own & bits == own, "{own} in {bits}");
        }
    }
}

#[test]
fn specular_only_filter_takes_no_diffuse_lobe() {
    let specular_only = BxDFType::single(LobeFlag::Specular)
        .union(BxDFType::single(LobeFlag::Reflection))
        .union(BxDFType::single(LobeFlag::Transmission));
    let l = lobes();
    assert!(!l[0].matches_flags(specular_only));
    assert!(l[1].matches_flags(specular_only));
    assert!(l[2].matches_flags(specular_only));
    assert!(l[3].matches_flags(specular_only));
}

#[test]
fn lambertian_value_is_reflectance_over_pi_everywhere() {
    let r = rgb(0.2, 0.4, 0.6);
    let l = LambertianReflection::new(r);
    let dirs = [
        v(0.0, 0.0, 1.0),
        v(0.0, 0.0, -1.0),
        v(3.0, 4.0, 0.0),
        v(0.1, 0.2, -7.0),
    ];
    for wo in dirs {
        for wi in dirs {
            assert_eq!(l.f(&wo, &wi), LobeValue::OverPi(r));
        }
    }
}

#[test]
fn specular_lobes_have_no_continuous_value_or_density() {
    let wo = v(0.0, 0.6, 0.8);
    let wi = v(0.0, -0.6, 0.8);
    for lobe in lobes().iter().skip(1) {
        assert_eq!(lobe.f(&wo, &wi), LobeValue::Zero);
        assert_eq!(lobe.pdf(&wo, &wi), Density::Zero);
    }
}

#[test]
fn lambertian_rho_is_the_reflectance() {
    let r = rgb(0.2, 0.4, 0.6);
    let l = LambertianReflection::new(r);
    let samples = vec![Point2::new(s(0.1), s(0.9)), Point2::new(s(0.5), s(0.5))];
    assert_eq!(l.rho(&v(0.0, 0.0, 1.0), 2, &samples), r);
    assert_eq!(l.rho(&v(0.3, 0.1, -0.2), 0, &Vec::new()), r);
    assert_eq!(l.rho_no_wo(2, &samples, &samples), r);
    assert_eq!(BxDF::Lambertian(l).closed_form_rho(), Some(r));
    for lobe in lobes().iter().skip(1) {
        assert_eq!(lobe.closed_form_rho(), None);
    }
}

#[test]
fn cosine_density_is_abs_cosine_over_pi_on_the_same_side() {
    let wo = v(0.0, 0.0, 1.0);
    assert_eq!(
        cosine_hemisphere_pdf(&wo, &v(0.6, 0.0, 0.8)),
        Density::CosineOverPi(s(0.8))
    );
    assert_eq!(cosine_hemisphere_pdf(&wo, &v(0.6, 0.0, -0.8)), Density::Zero);
    let below = v(0.0, 0.0, -1.0);
    assert_eq!(
        cosine_hemisphere_pdf(&below, &v(0.6, 0.0, -0.8)),
        Density::CosineOverPi(s(0.8))
    );
    let l = LambertianReflection::new(rgb(1.0, 1.0, 1.0));
    assert_eq!(l.pdf(&wo, &v(0.6, 0.0, 0.8)), Density::CosineOverPi(s(0.8)));
}

#[test]
fn sampling_mirrors_the_draw_to_the_side_of_wo() {
    let mut wi = v(0.6, 0.0, 0.8);
    let d = cosine_hemisphere_sample(&v(0.0, 0.0, 1.0), &mut wi);
    assert_eq!(wi, v(0.6, 0.0, 0.8));
    assert_eq!(d, Density::CosineOverPi(s(0.8)));

    let mut wi = v(0.6, 0.0, 0.8);
    let d = cosine_hemisphere_sample(&v(0.0, 0.0, -1.0), &mut wi);
    assert_eq!(wi, v(0.6, 0.0, -0.8));
    assert_eq!(d, Density::CosineOverPi(s(0.8)));
}

#[test]
fn sample_f_reports_the_density_that_pdf_gives() {
    let r = rgb(0.2, 0.4, 0.6);
    let l = LambertianReflection::new(r);
    let draws = [v(0.6, 0.0, 0.8), v(0.0, 1.0, 0.0), v(0.1, 0.2, 0.97)];
    let outs = [v(0.0, 0.0, 1.0), v(0.3, 0.0, -0.9), v(1.0, 0.0, 0.0)];
    for wo in outs {
        for draw in draws {
            let mut wi = draw;
            let mut pdf = Density::One;
            let mut sampled = None;
            let value = l.sample_f(&wo, &mut wi, &mut pdf, &mut sampled);
            assert_eq!(value, LobeValue::OverPi(r));
            assert_eq!(pdf, l.pdf(&wo, &wi));
            assert!(sampled.is_none());
        }
    }
}

#[test]
fn mirror_reflects_about_the_normal_with_weight_one() {
    let r = rgb(0.9, 0.8, 0.7);
    let fresnel = Fresnel::NoOp(FresnelNoOp {});
    let m = SpecularReflection::new(r, fresnel);
    let wo = v(0.36, -0.48, 0.8);
    let mut wi = v(0.0, 0.0, 0.0);
    let mut pdf = Density::Zero;
    let mut sampled = None;
    let value = m.sample_f(&wo, &mut wi, &mut pdf, &mut sampled);
    assert_eq!(wi, v(-0.36, 0.48, 0.8));
    assert_eq!(pdf, Density::One);
    assert_eq!(
        value,
        LobeValue::FresnelOverCosine { r, fresnel, cos_i: s(0.8) }
    );
}

#[test]
fn a_mirror_adds_nothing_for_a_direction_in_the_surface() {
    let m = SpecularReflection::new(rgb(0.9, 0.8, 0.7), Fresnel::NoOp(FresnelNoOp {}));
    for z in [0.0f32, -0.0] {
        let wo = v(0.6, 0.8, z);
        let mut wi = v(0.0, 0.0, 0.0);
        let mut pdf = Density::Zero;
        let mut sampled = None;
        let value = m.sample_f(&wo, &mut wi, &mut pdf, &mut sampled);
        assert_eq!(value, LobeValue::Zero);
        assert_eq!(wi, v(-0.6, -0.8, z));
        assert_eq!(pdf, Density::One);
    }
}

#[test]
fn only_the_no_op_term_is_constant() {
    assert_eq!(
        Fresnel::NoOp(FresnelNoOp {}).constant_reflectance(),
        Some(rgb(1.0, 1.0, 1.0))
    );
    assert_eq!(
        Fresnel::Dielectric(FresnelDielectric::new(s(1.0), s(1.5))).constant_reflectance(),
        None
    );
}

#[test]
fn fresnel_specular_reflects_below_the_reflectance() {
    let l = FresnelSpecular::new(
        rgb(1.0, 1.0, 1.0),
        rgb(1.0, 1.0, 1.0),
        s(1.0),
        s(1.5),
        TransportMode::Radiance,
    );
    // Reflectance of a 1.0 -> 1.5 interface at normal incidence: ((1.5 - 1) / (1.5 + 1))^2.
    let reflectance = s(0.04);
    assert_eq!(l.choose_branch(&s(0.0), &reflectance), SpecularBranch::Reflection);
    assert_eq!(l.choose_branch(&s(0.039), &reflectance), SpecularBranch::Reflection);
    assert_eq!(l.choose_branch(&s(0.04), &reflectance), SpecularBranch::Transmission);
    assert_eq!(l.choose_branch(&s(0.5), &reflectance), SpecularBranch::Transmission);
    assert_eq!(
        l.sampled_type(SpecularBranch::Reflection).bits(),
        BSDF_SPECULAR | BSDF_REFLECTION
    );
    assert_eq!(
        l.sampled_type(SpecularBranch::Transmission).bits(),
        BSDF_SPECULAR | BSDF_TRANSMISSION
    );
}

#[test]
fn fresnel_specular_branch_frequency_follows_the_reflectance() {
    let l = FresnelSpecular::new(
        rgb(1.0, 1.0, 1.0),
        rgb(1.0, 1.0, 1.0),
        s(1.0),
        s(1.5),
        TransportMode::Radiance,
    );
    let reflectance = 0.04f32;
    let n = 1000;
    let mut reflected = 0;
    for i in 0..n {
        let u = (i as f32 + 0.5) / n as f32;
        if l.choose_branch(&s(u), &s(reflectance)) == SpecularBranch::Reflection {
            reflected += 1;
        }
    }
    assert_eq!(reflected, 40);
}

#[test]
fn only_radiance_is_compressed_on_transmission() {
    let white = rgb(1.0, 1.0, 1.0);
    let radiance = FresnelSpecular::new(white, white, s(1.0), s(1.5), TransportMode::Radiance);
    let importance = FresnelSpecular::new(white, white, s(1.0), s(1.5), TransportMode::Importance);
    assert!(radiance.scales_transmission());
    assert!(!importance.scales_transmission());
    let radiance = SpecularTransmission::new(white, s(1.0), s(1.5), TransportMode::Radiance);
    let importance = SpecularTransmission::new(white, s(1.0), s(1.5), TransportMode::Importance);
    assert!(radiance.scales_transmission());
    assert!(!importance.scales_transmission());
    assert_eq!(radiance.fresnel, FresnelDielectric::new(s(1.0), s(1.5)));
}

#[test]
fn fresnel_specular_at_normal_incidence() {
    // A 1.0 -> 1.5 interface seen straight from above.
    let reflectance = ((1.5f32 - 1.0) / (1.5 + 1.0)).powi(2);
    assert!((reflectance - 0.04).abs() < 1.0e-6);
    let (r, t) = (rgb(0.9, 0.9, 0.9), rgb(0.8, 0.8, 0.8));
    let wo = v(0.0, 0.0, 1.0);
    let refracted = Some(v(0.0, 0.0, -1.0));
    for mode in [TransportMode::Radiance, TransportMode::Importance] {
        let l = FresnelSpecular::new(r, t, s(1.0), s(1.5), mode);

        let mut wi = v(9.0, 9.0, 9.0);
        let mut pdf = Density::Zero;
        let mut sampled = None;
        let u = Point2::new(s(0.01), s(0.5));
        let value =
            l.sample_f(&wo, &mut wi, &u, &s(reflectance), &refracted, &mut pdf, &mut sampled);
        assert_eq!(wi, v(-0.0, -0.0, 1.0));
        assert_eq!(pdf, Density::Weight(s(reflectance)));
        assert_eq!(value, LobeValue::Reflected { r, weight: s(reflectance), cos_i: s(1.0) });
        assert_eq!(sampled.unwrap().bits(), BSDF_SPECULAR | BSDF_REFLECTION);
        let reflected_probability = probability(pdf);
        assert!((red(value) - reflectance * 0.9).abs() < 1.0e-6);

        let mut wi = v(9.0, 9.0, 9.0);
        let mut sampled = None;
        let u = Point2::new(s(0.5), s(0.5));
        let value =
            l.sample_f(&wo, &mut wi, &u, &s(reflectance), &refracted, &mut pdf, &mut sampled);
        assert_eq!(wi, v(0.0, 0.0, -1.0));
        assert_eq!(pdf, Density::Complement(s(reflectance)));
        assert_eq!(
            value,
            LobeValue::Transmitted {
                t,
                reflectance: s(reflectance),
                eta_i: s(1.0),
                eta_t: s(1.5),
                compressed: mode == TransportMode::Radiance,
                cos_i: s(-1.0)
            }
        );
        assert_eq!(sampled.unwrap().bits(), BSDF_SPECULAR | BSDF_TRANSMISSION);
        assert!((probability(pdf) - (1.0 - reflectance)).abs() < 1.0e-6);
        assert!((reflected_probability + probability(pdf) - 1.0).abs() < 1.0e-6);
    }
}

#[test]
fn radiance_is_compressed_by_the_squared_index_ratio() {
    let (r, t) = (rgb(0.9, 0.9, 0.9), rgb(0.8, 0.8, 0.8));
    let reflectance = s(0.04);
    let u = Point2::new(s(0.5), s(0.5));
    // From above into the denser medium, and from below out of it.
    for (wo, refracted, eta_i, eta_t) in [
        (v(0.0, 0.6, 0.8), v(0.0, -0.4, -0.916_515_1), 1.0f32, 1.5f32),
        (v(0.0, 0.3, -0.953_939_2), v(0.0, -0.45, 0.893_028_5), 1.5, 1.0),
    ] {
        let sample = |mode: TransportMode| {
            let l = FresnelSpecular::new(r, t, s(1.0), s(1.5), mode);
            let mut wi = v(0.0, 0.0, 0.0);
            let mut pdf = Density::Zero;
            let mut sampled = None;
            let value =
                l.sample_f(&wo, &mut wi, &u, &reflectance, &Some(refracted), &mut pdf, &mut sampled);
            (wi, pdf, sampled.map(|t: BxDFType| t.bits()), value)
        };
        let (wi_r, pdf_r, type_r, radiance) = sample(TransportMode::Radiance);
        let (wi_i, pdf_i, type_i, importance) = sample(TransportMode::Importance);
        assert_eq!((wi_r, pdf_r, type_r), (wi_i, pdf_i, type_i));
        let ratio = (eta_i / eta_t).powi(2);
        assert!((red(radiance) - red(importance) * ratio).abs() < 1.0e-6);
        assert!(matches!(
            radiance,
            LobeValue::Transmitted { compressed: true, eta_i: a, eta_t: b, .. }
                if a == s(eta_i) && b == s(eta_t)
        ));
        assert!(matches!(importance, LobeValue::Transmitted { compressed: false, .. }));

        // The same holds of the lobe that only refracts, with weight 1.
        let refract = |mode: TransportMode| {
            let l = SpecularTransmission::new(t, s(1.0), s(1.5), mode);
            let mut wi = v(0.0, 0.0, 0.0);
            let mut pdf = Density::Zero;
            let mut sampled = None;
            let value =
                l.sample_f(&wo, &mut wi, &reflectance, &Some(refracted), &mut pdf, &mut sampled);
            assert!(sampled.is_none());
            (wi, pdf, value)
        };
        let (wi_r, pdf_r, radiance) = refract(TransportMode::Radiance);
        let (wi_i, pdf_i, importance) = refract(TransportMode::Importance);
        assert_eq!((wi_r, pdf_r), (wi_i, pdf_i));
        assert_eq!((wi_r, pdf_r), (refracted, Density::One));
        assert!((red(radiance) - red(importance) * ratio).abs() < 1.0e-6);
    }
    // What is reflected is the same in both modes.
    let reflect = |mode: TransportMode| {
        let l = FresnelSpecular::new(r, t, s(1.0), s(1.5), mode);
        let mut wi = v(0.0, 0.0, 0.0);
        let mut pdf = Density::Zero;
        let mut sampled = None;
        let u = Point2::new(s(0.0), s(0.0));
        let value = l.sample_f(
            &v(0.0, 0.6, 0.8),
            &mut wi,
            &u,
            &reflectance,
            &None,
            &mut pdf,
            &mut sampled,
        );
        (wi, pdf, value)
    };
    assert_eq!(reflect(TransportMode::Radiance), reflect(TransportMode::Importance));
}

#[test]
fn total_reflection_transmits_nothing() {
    let l = FresnelSpecular::new(
        rgb(1.0, 1.0, 1.0),
        rgb(1.0, 1.0, 1.0),
        s(1.0),
        s(1.5),
        TransportMode::Radiance,
    );
    let mut wi = v(1.0, 2.0, 3.0);
    let mut pdf = Density::One;
    let mut sampled = None;
    let value = l.sample_f(
        &v(0.0, 0.9, -0.1),
        &mut wi,
        &Point2::new(s(0.99), s(0.0)),
        &s(0.5),
        &None,
        &mut pdf,
        &mut sampled,
    );
    assert_eq!(value, LobeValue::Zero);
    assert_eq!(pdf, Density::Zero);
    assert_eq!(wi, v(1.0, 2.0, 3.0));
    assert!(sampled.is_none());

    let l =
        SpecularTransmission::new(rgb(1.0, 1.0, 1.0), s(1.0), s(1.5), TransportMode::Radiance);
    let value =
        l.sample_f(&v(0.0, 0.9, -0.1), &mut wi, &s(1.0), &None, &mut pdf, &mut sampled);
    assert_eq!((value, pdf), (LobeValue::Zero, Density::Zero));
    // A refracted direction in the surface has nothing to divide by.
    let value = l.sample_f(
        &v(0.0, 0.9, -0.1),
        &mut wi,
        &s(0.5),
        &Some(v(1.0, 0.0, 0.0)),
        &mut pdf,
        &mut sampled,
    );
    assert_eq!((value, pdf), (LobeValue::Zero, Density::One));
}
