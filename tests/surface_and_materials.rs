use pathtrace::{Dielectric, FaceKind, Lambertian, Material, Metal, World};

type V = (f64, f64, f64);

fn dot(a: V, b: V) -> f64 {
    a.0 * b.0 + a.1 * b.1 + a.2 * b.2
}

fn scaled(k: f64, a: V) -> V {
    (k * a.0, k * a.1, k * a.2)
}

#[test]
fn ray_against_outward_normal_meets_front_face() {
    assert_eq!(FaceKind::facing(true), FaceKind::Front);
}

#[test]
fn ray_along_outward_normal_meets_back_face() {
    assert_eq!(FaceKind::facing(false), FaceKind::Back);
}

#[test]
fn reported_normal_never_faces_the_ray() {
    let outward: V = (0.0, 0.0, 1.0);
    for direction in [(0.0, 0.0, -1.0), (0.0, 0.0, 1.0), (0.3, -0.2, 0.5), (1.0, 0.0, -0.01)] {
        let r = pathtrace::HitRecord::new(1.0, direction, outward, scaled(-1.0, outward), dot(direction, outward) < 0.0, ());
        assert!(dot(r.normal, direction) <= 0.0);
    }
}

#[test]
fn dielectric_indices_depend_on_the_face() {
    let glass = Dielectric { ior: 1.5 };
    assert_eq!(glass.indices(FaceKind::Front, 1.0), (1.0, 1.5));
    assert_eq!(glass.indices(FaceKind::Back, 1.0), (1.5, 1.0));
}

#[test]
fn dielectric_reflects_when_refraction_is_impossible() {
    let glass = Dielectric { ior: 1.5 };
    let r = glass.scatter((1.0, 2.0, 3.0), (0.0, 1.0, 0.0), (0.0, -1.0, 0.0), true, false, (1.0, 1.0, 1.0));
    assert_eq!(r.ray.origin, (1.0, 2.0, 3.0));
    assert_eq!(r.ray.direction, (0.0, 1.0, 0.0));
    assert_eq!(r.attenuation, (1.0, 1.0, 1.0));
}

#[test]
fn dielectric_reflects_on_sampled_reflectance() {
    let glass = Dielectric { ior: 1.5 };
    let r = glass.scatter((0.0, 0.0, 0.0), (0.0, 1.0, 0.0), (0.0, -1.0, 0.0), false, true, (1.0, 1.0, 1.0));
    assert_eq!(r.ray.direction, (0.0, 1.0, 0.0));
}

#[test]
fn dielectric_refracts_otherwise() {
    let glass = Dielectric { ior: 1.5 };
    let r = glass.scatter((0.0, 0.0, 0.0), (0.0, 1.0, 0.0), (0.0, -1.0, 0.0), false, false, (1.0, 1.0, 1.0));
    assert_eq!(r.ray.direction, (0.0, -1.0, 0.0));
    assert_eq!(r.attenuation, (1.0, 1.0, 1.0));
}

#[test]
fn lambertian_scatters_along_the_perturbed_normal() {
    let m = Lambertian { albedo: (0.5, 0.5, 0.5) };
    let r = m.scatter((0.0, 0.5, -1.0), (0.0, 1.0, 0.0), (0.2, 1.3, 0.1), false);
    assert_eq!(r.ray.origin, (0.0, 0.5, -1.0));
    assert_eq!(r.ray.direction, (0.2, 1.3, 0.1));
    assert_eq!(r.attenuation, (0.5, 0.5, 0.5));
}

#[test]
fn lambertian_falls_back_to_the_normal_when_degenerate() {
    let m = Lambertian { albedo: (0.7, 0.3, 0.2) };
    let r = m.scatter((0.0, 0.0, 0.0), (0.0, 1.0, 0.0), (1e-9, 0.0, -1e-9), true);
    assert_eq!(r.ray.direction, (0.0, 1.0, 0.0));
    assert_eq!(r.attenuation, (0.7, 0.3, 0.2));
}

#[test]
fn metal_scatters_when_leaving_the_surface() {
    let m = Metal { albedo: (0.8, 0.6, 0.2), fuzz: 0.0 };
    let r = m.scatter((1.0, 0.0, -1.0), (0.6, 0.8, 0.0), true).expect("scattered");
    assert_eq!(r.ray.origin, (1.0, 0.0, -1.0));
    assert_eq!(r.ray.direction, (0.6, 0.8, 0.0));
    assert_eq!(r.attenuation, (0.8, 0.6, 0.2));
}

#[test]
fn metal_absorbs_rays_that_reenter() {
    let m = Metal { albedo: (0.8, 0.6, 0.2), fuzz: 1.0 };
    assert!(m.scatter((1.0, 0.0, -1.0), (0.6, -0.8, 0.0), false).is_none());
}

#[test]
fn materials_are_one_closed_choice() {
    let all: Vec<Material<V, f64>> = vec![
        Material::Lambertian(Lambertian { albedo: (0.8, 0.8, 0.0) }),
        Material::Metal(Metal { albedo: (0.8, 0.6, 0.2), fuzz: 1.0 }),
        Material::Dielectric(Dielectric { ior: 1.5 }),
    ];
    assert!(matches!(all[2], Material::Dielectric(Dielectric { ior }) if ior == 1.5));
}

#[test]
fn world_keeps_primitives_in_order() {
    let mut w: World<u32> = World::new();
    assert_eq!(w.len(), 0);
    w.add(7);
    w.add(3);
    w.add(7);
    assert_eq!(w.len(), 3);
    assert_eq!(w.objects(), &vec![7, 3, 7]);
}

#[test]
fn world_clear_empties_it() {
    let mut w: World<u32> = World::new();
    w.add(1);
    w.add(2);
    w.clear();
    assert_eq!(w.len(), 0);
    assert!(w.objects().is_empty());
    w.add(5);
    assert_eq!(w.objects(), &vec![5]);
}

#[test]
fn hit_record_from_outside_keeps_the_outward_normal() {
    let outward: V = (0.0, 0.0, 1.0);
    let direction: V = (0.0, 0.0, -1.0);
    let r = pathtrace::HitRecord::new(0.5, (0.0, 0.0, -0.5), outward, scaled(-1.0, outward), dot(direction, outward) < 0.0, 7u8);
    assert_eq!(r.t, 0.5);
    assert_eq!(r.hit_point, (0.0, 0.0, -0.5));
    assert_eq!(r.face, FaceKind::Front);
    assert_eq!(r.normal, (0.0, 0.0, 1.0));
    assert_eq!(r.material, 7);
    assert!(dot(r.normal, direction) <= 0.0);
}

#[test]
fn hit_record_from_inside_reports_the_inward_normal() {
    let outward: V = (0.6, 0.8, 0.0);
    let direction: V = (0.3, 0.4, 0.1);
    let r = pathtrace::HitRecord::new(2.0, (0.6, 0.8, 0.0), outward, scaled(-1.0, outward), dot(direction, outward) < 0.0, ());
    assert_eq!(r.face, FaceKind::Back);
    assert_eq!(r.normal, (-0.6, -0.8, -0.0));
    assert!(dot(r.normal, direction) <= 0.0);
}
