use raytracer::hitrecord::HitRecord;
use raytracer::hittable::{Crossing, GeometryError, HittableList, Sphere};
use raytracer::integrator::{
    ray_color, sky_blue, sky_white, Estimate, Path, HALF_BITS, SEVEN_TENTHS_BITS, T_MIN_BITS,
};
use raytracer::material::{Lambertian, Material, Outgoing};
use raytracer::ray::Ray;
use raytracer::scalar::Scalar;
use raytracer::vec3::Vec3;

fn s(x: f64) -> Scalar {
    Scalar::from_bits(x.to_bits())
}

fn f(x: Scalar) -> f64 {
    f64::from_bits(x.to_bits())
}

fn v(x: f64, y: f64, z: f64) -> Vec3 {
    Vec3::new(s(x), s(y), s(z))
}

fn floats(a: Vec3) -> [f64; 3] {
    [f(a.x()), f(a.y()), f(a.z())]
}

fn camera_ray() -> Ray {
    Ray::new(v(0.0, 0.0, 5.0), v(0.0, 0.0, -1.0))
}

fn through(near: f64, far: f64) -> Crossing {
    Crossing::new(s(1.0), s(1.0), s(near), s(far))
}

fn one_ball(albedo: [f64; 3]) -> HittableList {
    let mut world = HittableList::new();
    let matte = Material::Lambertian(Lambertian::new(v(albedo[0], albedo[1], albedo[2])));
    world.add(Sphere::new(v(0.0, 0.0, 0.0), s(1.0), matte).unwrap());
    world
}

/// The gradient of the sky along `direction`, in doubles.
fn sky(direction: [f64; 3]) -> [f64; 3] {
    let len = (direction[0] * direction[0] + direction[1] * direction[1]
        + direction[2] * direction[2])
        .sqrt();
    let t = 0.5 * (direction[1] / len + 1.0);
    let white = floats(sky_white());
    let blue = floats(sky_blue());
    [
        (1.0 - t) * white[0] + t * blue[0],
        (1.0 - t) * white[1] + t * blue[1],
        (1.0 - t) * white[2] + t * blue[2],
    ]
}

/// The quadratic of `r` against the unit sphere round the origin, in doubles.
fn cross_unit_ball(r: &Ray) -> Crossing {
    let o = floats(r.origin());
    let d = floats(r.direction());
    let a = d[0] * d[0] + d[1] * d[1] + d[2] * d[2];
    let half_b = o[0] * d[0] + o[1] * d[1] + o[2] * d[2];
    let c = o[0] * o[0] + o[1] * o[1] + o[2] * o[2] - 1.0;
    let discriminant = half_b * half_b - a * c;
    let sqrtd = discriminant.sqrt();
    Crossing::new(
        s(a),
        s(discriminant),
        s((-half_b - sqrtd) / a),
        s((-half_b + sqrtd) / a),
    )
}

/// Follows a path through a scene of one unit sphere round the origin.
/// `offset` stands for the random unit vector of the matte surface.
fn render(world: &HittableList, r: &Ray, depth: i32, offset: [f64; 3]) -> [f64; 3] {
    let mut path = ray_color(r, depth);
    let mut rec = HitRecord::default();
    while let Some(ray) = path.pending() {
        let seen: Vec<Crossing> = (0..world.len()).map(|_| cross_unit_ball(&ray)).collect();
        if let Some(_) = path.look(world, &seen, &mut rec).unwrap() {
            let o = floats(ray.origin());
            let d = floats(ray.direction());
            let t = f(rec.t);
            let p = [o[0] + t * d[0], o[1] + t * d[1], o[2] + t * d[2]];
            let facing = d[0] * p[0] + d[1] * p[1] + d[2] * p[2];
            rec.point = v(p[0], p[1], p[2]);
            rec.set_face_normal(s(facing), &v(p[0], p[1], p[2]));
            let n = floats(rec.normal);
            let out = [n[0] + offset[0], n[1] + offset[1], n[2] + offset[2]];
            let proposal = Outgoing {
                direction: v(out[0], out[1], out[2]),
                facing: s(out[0] * n[0] + out[1] * n[1] + out[2] * n[2]),
            };
            path.bounce(rec.material.scatter(&rec, &proposal));
        }
    }
    let mut color = match path.state() {
        Estimate::Sky { ray } => sky(floats(ray.direction())),
        _ => [0.0, 0.0, 0.0],
    };
    for a in path.attenuations().iter().rev() {
        let a = floats(*a);
        color = [a[0] * color[0], a[1] * color[1], a[2] * color[2]];
    }
    color
}

#[test]
fn constants_of_the_integrator() {
    assert_eq!(T_MIN_BITS, 0.001f64.to_bits());
    assert_eq!(HALF_BITS, 0.5f64.to_bits());
    assert_eq!(SEVEN_TENTHS_BITS, 0.7f64.to_bits());
    assert_eq!(f(Path::t_min()), 0.001);
    assert_eq!(floats(sky_white()), [1.0, 1.0, 1.0]);
    assert_eq!(floats(sky_blue()), [0.5, 0.7, 1.0]);
}

#[test]
fn depth_zero_is_black() {
    let path = ray_color(&camera_ray(), 0);
    assert!(matches!(path.state(), Estimate::Black));
    assert!(path.state().is_done());
    assert!(path.pending().is_none());
    assert!(path.attenuations().is_empty());
}

#[test]
fn negative_depth_is_black() {
    for depth in [-1, -50, i32::MIN] {
        let path = ray_color(&camera_ray(), depth);
        assert!(matches!(path.state(), Estimate::Black));
        assert!(path.pending().is_none());
    }
}

#[test]
fn depth_zero_is_black_whatever_the_scene() {
    let world = one_ball([0.5, 0.5, 0.5]);
    assert_eq!(render(&world, &camera_ray(), 0, [0.0, 0.0, 0.0]), [0.0, 0.0, 0.0]);
    assert_eq!(render(&HittableList::new(), &camera_ray(), 0, [0.0, 0.0, 0.0]), [0.0, 0.0, 0.0]);
}

#[test]
fn positive_depth_waits_for_a_search() {
    let path = ray_color(&camera_ray(), 3);
    assert!(!path.state().is_done());
    assert!(matches!(path.state(), Estimate::Tracing { depth: 3, .. }));
    let ray = path.pending().unwrap();
    assert_eq!(floats(ray.origin()), [0.0, 0.0, 5.0]);
    assert_eq!(floats(ray.direction()), [0.0, 0.0, -1.0]);
}

#[test]
fn empty_scene_ends_in_the_sky() {
    let world = HittableList::new();
    let mut rec = HitRecord::default();
    let mut path = ray_color(&camera_ray(), 50);
    assert_eq!(path.look(&world, &vec![], &mut rec), Ok(None));
    match path.state() {
        Estimate::Sky { ray } => assert_eq!(floats(ray.direction()), [0.0, 0.0, -1.0]),
        other => panic!("{other:?}"),
    }
    assert!(path.pending().is_none());
    assert!(path.attenuations().is_empty());
}

#[test]
fn empty_scene_gives_the_sky_gradient_for_every_ray() {
    let world = HittableList::new();
    let directions = [
        [0.0, 0.0, -1.0],
        [0.0, 1.0, 0.0],
        [0.0, -1.0, 0.0],
        [0.3, 0.4, -1.2],
        [-2.0, -0.5, 0.25],
    ];
    for d in directions {
        let r = Ray::new(v(13.0, 2.0, 3.0), v(d[0], d[1], d[2]));
        for depth in [1, 2, 50] {
            assert_eq!(render(&world, &r, depth, [0.0, 0.0, 0.0]), sky(d), "{d:?}");
        }
    }
    assert_eq!(sky([0.0, 1.0, 0.0]), [0.5, 0.7, 1.0]);
    assert_eq!(sky([0.0, -1.0, 0.0]), [1.0, 1.0, 1.0]);
    assert_eq!(sky([0.0, 0.0, -1.0]), [0.75, 0.85, 1.0]);
}

#[test]
fn hit_waits_for_the_material() {
    let world = one_ball([0.5, 0.5, 0.5]);
    let mut rec = HitRecord::default();
    let mut path = ray_color(&camera_ray(), 2);
    assert_eq!(path.look(&world, &vec![through(4.0, 6.0)], &mut rec), Ok(Some(0)));
    assert_eq!(f(rec.t), 4.0);
    assert!(matches!(path.state(), Estimate::Struck { depth: 2, .. }));
    assert!(path.pending().is_none());
    assert!(!path.state().is_done());
}

#[test]
fn hits_nearer_than_a_thousandth_do_not_count() {
    let world = one_ball([0.5, 0.5, 0.5]);
    let mut rec = HitRecord::default();
    let mut path = ray_color(&camera_ray(), 2);
    assert_eq!(path.look(&world, &vec![through(0.0009, 2.0)], &mut rec), Ok(Some(0)));
    assert_eq!(f(rec.t), 2.0);
    let mut path = ray_color(&camera_ray(), 2);
    assert_eq!(path.look(&world, &vec![through(-2.0, 0.0005)], &mut rec), Ok(None));
    assert!(matches!(path.state(), Estimate::Sky { .. }));
    let mut path = ray_color(&camera_ray(), 2);
    assert_eq!(path.look(&world, &vec![through(0.001, 2.0)], &mut rec), Ok(Some(0)));
    assert_eq!(f(rec.t), 0.001);
}

#[test]
fn absorbed_path_ends_in_black() {
    let world = one_ball([0.5, 0.5, 0.5]);
    let mut rec = HitRecord::default();
    let mut path = ray_color(&camera_ray(), 5);
    path.look(&world, &vec![through(4.0, 6.0)], &mut rec).unwrap();
    path.bounce(None);
    assert!(matches!(path.state(), Estimate::Black));
    assert!(path.attenuations().is_empty());
}

#[test]
fn scattered_path_goes_on_with_one_bounce_less() {
    let world = one_ball([0.5, 0.5, 0.5]);
    let mut rec = HitRecord::default();
    let mut path = ray_color(&camera_ray(), 5);
    path.look(&world, &vec![through(4.0, 6.0)], &mut rec).unwrap();
    let next = Ray::new(v(0.0, 0.0, 1.0), v(0.0, 1.0, 1.0));
    path.bounce(Some((v(0.5, 0.25, 0.125), next)));
    assert!(matches!(path.state(), Estimate::Tracing { depth: 4, .. }));
    assert_eq!(floats(path.pending().unwrap().direction()), [0.0, 1.0, 1.0]);
    assert_eq!(path.attenuations().len(), 1);
    assert_eq!(floats(path.attenuations()[0]), [0.5, 0.25, 0.125]);
}

#[test]
fn last_bounce_ends_in_black() {
    let world = one_ball([0.5, 0.5, 0.5]);
    let mut rec = HitRecord::default();
    let mut path = ray_color(&camera_ray(), 1);
    path.look(&world, &vec![through(4.0, 6.0)], &mut rec).unwrap();
    path.bounce(Some((v(0.5, 0.5, 0.5), camera_ray())));
    assert!(matches!(path.state(), Estimate::Black));
    assert_eq!(path.attenuations().len(), 1);
}

#[test]
fn path_never_bounces_more_often_than_its_depth() {
    let world = one_ball([0.9, 0.9, 0.9]);
    for depth in [1, 2, 7] {
        let mut rec = HitRecord::default();
        let mut path = ray_color(&camera_ray(), depth);
        let mut searches = 0;
        while path.pending().is_some() {
            searches += 1;
            path.look(&world, &vec![through(1.0, 2.0)], &mut rec).unwrap();
            path.bounce(Some((v(0.9, 0.9, 0.9), camera_ray())));
        }
        assert_eq!(searches, depth);
        assert_eq!(path.attenuations().len(), depth as usize);
        assert!(matches!(path.state(), Estimate::Black));
    }
}

#[test]
fn steps_out_of_turn_change_nothing() {
    let world = one_ball([0.5, 0.5, 0.5]);
    let mut rec = HitRecord::default();
    let mut path = ray_color(&camera_ray(), 3);
    path.bounce(Some((v(0.5, 0.5, 0.5), camera_ray())));
    assert!(matches!(path.state(), Estimate::Tracing { depth: 3, .. }));
    assert!(path.attenuations().is_empty());
    path.look(&world, &vec![through(4.0, 6.0)], &mut rec).unwrap();
    rec.t = s(77.0);
    assert_eq!(path.look(&world, &vec![through(1.0, 2.0)], &mut rec), Ok(None));
    assert!(matches!(path.state(), Estimate::Struck { depth: 3, .. }));
    assert_eq!(f(rec.t), 77.0);
    let mut done = ray_color(&camera_ray(), 0);
    done.bounce(Some((v(0.5, 0.5, 0.5), camera_ray())));
    assert_eq!(done.look(&world, &vec![through(1.0, 2.0)], &mut rec), Ok(None));
    assert!(matches!(done.state(), Estimate::Black));
    assert!(done.attenuations().is_empty());
}

#[test]
fn failed_search_leaves_the_path_waiting() {
    let world = one_ball([0.5, 0.5, 0.5]);
    let mut rec = HitRecord::default();
    let mut path = ray_color(&camera_ray(), 3);
    assert_eq!(path.look(&world, &vec![], &mut rec), Err(GeometryError::InvalidRay));
    assert_eq!(
        path.look(&world, &vec![through(3.0, 2.0)], &mut rec),
        Err(GeometryError::InvalidRay)
    );
    assert!(matches!(path.state(), Estimate::Tracing { depth: 3, .. }));
    assert_eq!(path.look(&world, &vec![through(2.0, 3.0)], &mut rec), Ok(Some(0)));
}

#[test]
fn matte_sphere_under_the_sky_is_darker_than_the_sky_and_not_black() {
    let albedo = [0.5, 0.5, 0.5];
    let world = one_ball(albedo);
    let r = camera_ray();
    let background = sky(floats(r.direction()));
    let offsets = [[0.0, 0.0, 0.0], [0.0, 1.0, 0.0], [0.6, 0.0, 0.8], [0.0, -0.6, 0.8]];
    for offset in offsets {
        let color = render(&world, &r, 2, offset);
        for k in 0..3 {
            assert!(color[k] > 0.0, "{offset:?}");
            assert!(color[k] < background[k], "{offset:?}");
        }
    }
    let straight_back = render(&world, &r, 2, [0.0, 0.0, 0.0]);
    let seen = sky([0.0, 0.0, 1.0]);
    assert_eq!(straight_back, [0.5 * seen[0], 0.5 * seen[1], 0.5 * seen[2]]);
    assert_eq!(straight_back, [0.375, 0.425, 0.5]);
}

#[test]
fn matte_sphere_with_a_single_bounce_is_black() {
    let world = one_ball([0.5, 0.5, 0.5]);
    assert_eq!(render(&world, &camera_ray(), 1, [0.0, 1.0, 0.0]), [0.0, 0.0, 0.0]);
}
