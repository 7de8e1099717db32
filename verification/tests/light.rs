use pathtracer::bsdf::BSDF;
use pathtracer::bxdf::LobeValue;
use pathtracer::flags::{BxDFType, AREA, DELTA_DIRECTION, DELTA_POSITION, INFINITE};
use pathtracer::geometry::{Point2, Point3, Sphere, Vector3};
use pathtracer::interaction::{Interaction, Shading, SurfaceMediumInteraction, TextureSamples};
use pathtracer::light::{
    DiffuseAreaLight, DirectionalLight, Incidence, InfiniteAreaLight, Light, LightInterface,
    LightPlacement, PointLight, Power, Radiance, Shadow, VisibilityTester,
};
use pathtracer::material::{MaterialInterface, MatteMaterial};
use pathtracer::scalar::Scalar;
use pathtracer::shape::Triangle;
use pathtracer::spectrum::Spectrum;
use pathtracer::texture::SpectrumTexture;
use pathtracer::TransportMode;

fn s(x: f32) -> Scalar {
    Scalar::from_bits(x.to_bits())
}

fn f(x: Scalar) -> f32 {
    f32::from_bits(x.to_bits())
}

fn v(x: f32, y: f32, z: f32) -> Vector3 {
    Vector3::new(s(x), s(y), s(z))
}

fn p(x: f32, y: f32, z: f32) -> Point3 {
    Point3::new(s(x), s(y), s(z))
}

fn grey(x: f32) -> Spectrum {
    Spectrum::new(s(x))
}

fn reference() -> Interaction {
    Interaction {
        p: p(1.0, 2.0, 3.0),
        time: s(0.75),
        p_error: v(0.0, 0.0, 0.0),
        wo: v(0.0, 0.0, 1.0),
        n: v(0.0, 0.0, 1.0),
    }
}

fn squared_distance(a: Point3, b: Point3) -> f32 {
    let (dx, dy, dz) = (f(b.x) - f(a.x), f(b.y) - f(a.y), f(b.z) - f(a.z));
    dx * dx + dy * dy + dz * dz
}

fn red_of(radiance: Radiance) -> f32 {
    match radiance {
        Radiance::InverseSquare { intensity, from, to } => {
            f(intensity.r) / squared_distance(from, to)
        }
        Radiance::Constant(l) => f(l.r),
    }
}

fn red_of_power(power: Power) -> f32 {
    match power {
        Power::Isotropic(i) => 4.0 * std::f32::consts::PI * f(i.r),
        Power::Disk { radiance, radius } => {
            f(radiance.r) * std::f32::consts::PI * f(radius) * f(radius)
        }
    }
}

#[test]
fn the_default_interaction_is_all_zero() {
    let it = Interaction::default();
    assert_eq!(it, Interaction::at(p(0.0, 0.0, 0.0), s(0.0)));
    assert_eq!(it.n, v(0.0, 0.0, 0.0));
    let at = Interaction::at(p(1.0, 2.0, 3.0), s(0.5));
    assert_eq!(at.p, p(1.0, 2.0, 3.0));
    assert_eq!(at.time, s(0.5));
    assert_eq!(at.wo, v(0.0, 0.0, 0.0));
    assert_eq!(at.p_error, v(0.0, 0.0, 0.0));
}

#[test]
fn the_tester_is_free_exactly_when_nothing_intersects() {
    let t = VisibilityTester::new(reference(), Interaction::at(p(0.0, 0.0, 9.0), s(0.75)));
    assert!(t.unoccluded(false));
    assert!(!t.unoccluded(true));
}

#[test]
fn point_light_sample_is_deterministic() {
    let light = PointLight::new(p(1.0, 2.0, 5.0), grey(10.0));
    assert_eq!(light.num_samples, 1);
    assert_eq!(light.flags().bits(), DELTA_POSITION);
    for u in [Point2::new(s(0.0), s(0.0)), Point2::new(s(0.3), s(0.9))] {
        let mut wi = Incidence::Along(v(0.0, 0.0, 0.0));
        let mut pdf = s(0.0);
        let mut vis = None;
        let li = light.sample_li(&reference(), &u, &mut wi, &mut pdf, &mut vis);
        assert_eq!(wi, Incidence::Toward(p(1.0, 2.0, 5.0)));
        assert_eq!(f(pdf), 1.0);
        assert_eq!(
            vis,
            Some(Shadow::Between(VisibilityTester::new(
                reference(),
                Interaction::at(p(1.0, 2.0, 5.0), s(0.75))
            )))
        );
        assert_eq!(
            li,
            Radiance::InverseSquare {
                intensity: grey(10.0),
                from: p(1.0, 2.0, 3.0),
                to: p(1.0, 2.0, 5.0)
            }
        );
    }
}

#[test]
fn a_point_light_adds_nothing_at_its_own_position() {
    for (at, light_at) in [
        (p(1.0, 2.0, 3.0), p(1.0, 2.0, 3.0)),
        (p(0.0, -0.0, 3.0), p(-0.0, 0.0, 3.0)),
    ] {
        let light = PointLight::new(light_at, grey(10.0));
        let reference = Interaction::at(at, s(0.5));
        let mut wi = Incidence::Toward(p(9.0, 9.0, 9.0));
        let mut pdf = s(0.0);
        let mut vis = None;
        let li = light.sample_li(
            &reference,
            &Point2::new(s(0.5), s(0.5)),
            &mut wi,
            &mut pdf,
            &mut vis,
        );
        assert_eq!(wi, Incidence::Along(v(0.0, 0.0, 0.0)));
        assert_eq!(li, Radiance::Constant(grey(0.0)));
        assert_eq!(f(pdf), 1.0);
        assert_eq!(
            vis,
            Some(Shadow::Between(VisibilityTester::new(
                reference,
                Interaction::at(light_at, s(0.5))
            )))
        );
        assert_eq!(Light::Point(light).power(), Power::Isotropic(grey(10.0)));
    }
    // One coordinate apart is apart.
    let light = PointLight::new(p(1.0, 2.0, 3.0), grey(10.0));
    let mut wi = Incidence::Along(v(0.0, 0.0, 0.0));
    let mut pdf = s(0.0);
    let mut vis = None;
    let li = light.sample_li(
        &Interaction::at(p(1.0, 2.0, 3.5), s(0.0)),
        &Point2::new(s(0.5), s(0.5)),
        &mut wi,
        &mut pdf,
        &mut vis,
    );
    assert_eq!(wi, Incidence::Toward(p(1.0, 2.0, 3.0)));
    assert_eq!(red_of(li), 40.0);
}

#[test]
fn point_light_falls_off_with_the_squared_distance() {
    let light = PointLight::new(p(1.0, 2.0, 5.0), grey(10.0));
    let mut wi = Incidence::Along(v(0.0, 0.0, 0.0));
    let mut pdf = s(0.0);
    let mut vis = None;
    let li = light.sample_li(
        &reference(),
        &Point2::new(s(0.5), s(0.5)),
        &mut wi,
        &mut pdf,
        &mut vis,
    );
    assert_eq!(red_of(li), 2.5);
    assert_eq!(light.power(), Power::Isotropic(grey(10.0)));
    assert_eq!(red_of_power(light.power()), 4.0 * std::f32::consts::PI * 10.0);
}

#[test]
fn directional_light_needs_the_scene_before_its_power() {
    let mut light = DirectionalLight::new(grey(3.0), v(0.0, 0.0, -1.0));
    assert!(!light.is_preprocessed());
    assert!(!Light::Directional(light).is_usable());
    assert_eq!(light.flags().bits(), DELTA_DIRECTION);
    assert_eq!(Light::Directional(light).flags().bits(), DELTA_DIRECTION);
    let world = Sphere { center: p(0.0, 1.0, 0.0), radius: s(2.0) };
    light.preprocess(world);
    assert!(light.is_preprocessed());
    assert!(Light::Directional(light).is_usable());
    assert_eq!(light.world, Some(world));
    assert_eq!(light.l, grey(3.0));
    assert_eq!(light.w_light, v(0.0, 0.0, -1.0));
    assert_eq!(light.power(), Power::Disk { radiance: grey(3.0), radius: s(2.0) });
    assert_eq!(red_of_power(light.power()), 3.0 * std::f32::consts::PI * 4.0);
}

#[test]
fn directional_light_sample_is_deterministic() {
    let mut light = DirectionalLight::new(grey(3.0), v(0.0, 0.6, -0.8));
    light.preprocess(Sphere { center: p(0.0, 0.0, 0.0), radius: s(7.0) });
    let mut wi = Incidence::Toward(p(0.0, 0.0, 0.0));
    let mut pdf = s(0.0);
    let mut vis = None;
    let li = light.sample_li(
        &reference(),
        &Point2::new(s(0.1), s(0.2)),
        &mut wi,
        &mut pdf,
        &mut vis,
    );
    assert_eq!(wi, Incidence::Along(v(0.0, 0.6, -0.8)));
    assert_eq!(f(pdf), 1.0);
    assert_eq!(
        vis,
        Some(Shadow::Outward { from: reference(), along: v(0.0, 0.6, -0.8), radius: s(7.0) })
    );
    assert_eq!(li, Radiance::Constant(grey(3.0)));
}

#[test]
fn lights_dispatch_by_variant() {
    let point = Light::Point(PointLight::new(p(0.0, 0.0, 2.0), grey(10.0)));
    let area = Light::Area(DiffuseAreaLight::new(
        SpectrumTexture::Constant(grey(1.0)),
        Triangle { mesh: 0, face: 0 },
        1,
    ));
    let infinite = Light::Infinite(InfiniteAreaLight::new(grey(1.0)));
    assert_eq!(point.flags().bits(), DELTA_POSITION);
    assert_eq!(area.flags().bits(), AREA);
    assert_eq!(infinite.flags().bits(), INFINITE);
    assert!(point.is_usable());
    assert!(!area.is_usable());
    assert!(!infinite.is_usable());
    assert_eq!(point.le(), grey(0.0));
    assert_eq!(point.power(), Power::Isotropic(grey(10.0)));
    let mut wi = Incidence::Along(v(0.0, 0.0, 0.0));
    let mut pdf = s(0.0);
    let mut vis = None;
    let li = point.sample_li(
        &reference(),
        &Point2::new(s(0.0), s(0.0)),
        &mut wi,
        &mut pdf,
        &mut vis,
    );
    assert_eq!(wi, Incidence::Toward(p(0.0, 0.0, 2.0)));
    assert_eq!(f(pdf), 1.0);
    assert!(matches!(vis, Some(Shadow::Between(_))));
    assert!(matches!(li, Radiance::InverseSquare { .. }));
}

#[test]
fn preprocess_reaches_only_lights_that_need_the_scene() {
    let world = Sphere { center: p(1.0, 1.0, 1.0), radius: s(5.0) };
    let mut point = Light::Point(PointLight::new(p(0.0, 0.0, 2.0), grey(10.0)));
    point.preprocess(world);
    assert_eq!(point, Light::Point(PointLight::new(p(0.0, 0.0, 2.0), grey(10.0))));
    let mut directional = Light::Directional(DirectionalLight::new(grey(1.0), v(0.0, 0.0, -1.0)));
    directional.preprocess(world);
    assert_eq!(
        directional,
        Light::Directional(DirectionalLight {
            l: grey(1.0),
            w_light: v(0.0, 0.0, -1.0),
            world: Some(world)
        })
    );
    assert_eq!(directional.power(), Power::Disk { radiance: grey(1.0), radius: s(5.0) });
    let mut infinite = Light::Infinite(InfiniteAreaLight::new(grey(1.0)));
    infinite.preprocess(world);
    assert_eq!(
        infinite,
        Light::Infinite(InfiniteAreaLight { scale: grey(1.0), world: Some(world) })
    );
}

#[test]
fn imported_lights_go_by_kind() {
    let placement = LightPlacement { position: p(1.0, 2.0, 3.0), direction: v(0.0, 0.0, -1.0) };
    let color = grey(4.0);
    assert_eq!(
        Light::from_gltf(&gltf::khr_lights_punctual::Kind::Point, color, &placement),
        Light::Point(PointLight::new(p(1.0, 2.0, 3.0), color))
    );
    assert_eq!(
        Light::from_gltf(&gltf::khr_lights_punctual::Kind::Directional, color, &placement),
        Light::Directional(DirectionalLight::new(color, v(0.0, 0.0, -1.0)))
    );
    assert_eq!(
        Light::from_gltf(
            &gltf::khr_lights_punctual::Kind::Spot {
                inner_cone_angle: 0.1,
                outer_cone_angle: 0.5
            },
            color,
            &placement
        ),
        Light::Point(PointLight::new(p(1.0, 2.0, 3.0), color))
    );
}

#[test]
fn area_light_emission_is_not_evaluated() {
    let light = DiffuseAreaLight::new(
        SpectrumTexture::Constant(grey(1.0)),
        Triangle { mesh: 2, face: 5 },
        1,
    );
    light.L(&reference(), &v(0.0, 0.0, 1.0));
    assert_eq!(light.ke, SpectrumTexture::Constant(grey(1.0)));
    assert_eq!(light.shape, Triangle { mesh: 2, face: 5 });
    assert_eq!(light.num_samples, 1);
}

#[test]
fn direct_light_on_a_matte_surface_under_a_point_light() {
    // A grey matte surface at the origin with normal +z, lit by a point light
    // of intensity 10 at distance 2 straight above it.
    let mut si = SurfaceMediumInteraction {
        p: p(0.0, 0.0, 0.0),
        time: s(0.0),
        wo: v(0.0, 0.0, 1.0),
        n: v(0.0, 0.0, 1.0),
        uv: Point2::new(s(0.0), s(0.0)),
        dpdu: v(1.0, 0.0, 0.0),
        dpdv: v(0.0, 1.0, 0.0),
        shading: Shading { n: v(0.0, 0.0, 1.0), dpdu: v(1.0, 0.0, 0.0), dpdv: v(0.0, 1.0, 0.0) },
        bsdf: None,
        texels: TextureSamples::new(),
    };
    MatteMaterial::new(SpectrumTexture::Constant(grey(0.5)))
        .compute_scattering_functions(&mut si, TransportMode::Radiance);
    let bsdf: &BSDF = si.bsdf.as_ref().unwrap();

    let light = Light::Point(PointLight::new(p(0.0, 0.0, 2.0), grey(10.0)));
    let at = Interaction { p: si.p, time: si.time, p_error: v(0.0, 0.0, 0.0), wo: si.wo, n: si.n };
    let mut wi = Incidence::Along(v(0.0, 0.0, 0.0));
    let mut pdf = s(0.0);
    let mut vis = None;
    let li = light.sample_li(&at, &Point2::new(s(0.5), s(0.5)), &mut wi, &mut pdf, &mut vis);

    let Some(Shadow::Between(tester)) = vis else { panic!("a point light tests a segment") };
    assert!(tester.unoccluded(false));
    assert_eq!(tester.p0.p, p(0.0, 0.0, 0.0));
    assert_eq!(tester.p1.p, p(0.0, 0.0, 2.0));

    // The direction towards the light, in the shading frame.
    let Incidence::Toward(target) = wi else { panic!("a point light is looked at") };
    let d = squared_distance(si.p, target).sqrt();
    let wi_local = v(
        (f(target.x) - f(si.p.x)) / d,
        (f(target.y) - f(si.p.y)) / d,
        (f(target.z) - f(si.p.z)) / d,
    );
    let cos = f(wi_local.z).abs();
    assert_eq!(cos, 1.0);

    let values = bsdf.f(&si.wo, &wi_local, BxDFType::all());
    assert_eq!(values.len(), 1);
    let scattering = match values[0] {
        LobeValue::OverPi(r) => f(r.r) * std::f32::consts::FRAC_1_PI,
        _ => panic!("a matte surface is diffuse"),
    };
    let contribution = scattering * red_of(li) * cos / f(pdf);
    let expected = (0.5 / std::f32::consts::PI) * (10.0 / 4.0) * 1.0;
    assert!((contribution - expected).abs() < 1.0e-6, "{contribution} vs {expected}");
}
