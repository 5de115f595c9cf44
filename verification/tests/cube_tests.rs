use raytracer::color::Color;
use raytracer::cube::{on_plane, slab, Cube, FACE_EPSILON};
use raytracer::engine::nearest_hit;
use raytracer::material::Material;
use raytracer::ray_intersect::RayIntersect;
use raytracer::scalar::{Scalar, LIMIT};
use raytracer::vector::Vec3;
use std::rc::Rc;

fn red() -> Rc<Material> {
    Rc::new(Material::new(
        Color::new(200, 50, 50),
        Scalar::from_int(10),
        [Scalar::from_ratio(9, 10), Scalar::from_ratio(1, 10), Scalar::zero(), Scalar::zero()],
        Scalar::zero(),
        None,
        Color::black(),
    ))
}

fn unit_cube() -> Cube {
    Cube { center: Vec3::from_ints(0, 0, -5), size: Scalar::one(), material: red() }
}

fn tenths(x: i64, y: i64, z: i64) -> Vec3 {
    Vec3::new(Scalar::from_ratio(x, 10), Scalar::from_ratio(y, 10), Scalar::from_ratio(z, 10))
}

#[test]
fn cube_corners() {
    let cube = unit_cube();
    assert_eq!(cube.half_size(), Scalar::from_ratio(1, 2));
    assert_eq!(cube.min_corner(), tenths(-5, -5, -55));
    assert_eq!(cube.max_corner(), tenths(5, 5, -45));
}

#[test]
fn slab_orders_its_parameters() {
    let (near, far) = slab(
        Scalar::from_ratio(-55, 10),
        Scalar::from_ratio(-45, 10),
        Scalar::zero(),
        Scalar::from_int(-1),
    );
    assert_eq!(near, Scalar::from_ratio(45, 10));
    assert_eq!(far, Scalar::from_ratio(55, 10));
    let (near, far) = slab(
        Scalar::from_int(1),
        Scalar::from_int(3),
        Scalar::zero(),
        Scalar::from_int(2),
    );
    assert_eq!(near, Scalar::from_ratio(1, 2));
    assert_eq!(far, Scalar::from_ratio(3, 2));
}

#[test]
fn slab_of_a_ray_that_does_not_move_spans_the_range_or_none_of_it() {
    let zero = Scalar::zero();
    let inside = slab(Scalar::from_int(-1), Scalar::from_int(1), zero, zero);
    assert_eq!((inside.0.raw, inside.1.raw), (-LIMIT, LIMIT));
    let above = slab(Scalar::from_int(-1), Scalar::from_int(1), Scalar::from_int(2), zero);
    assert_eq!((above.0.raw, above.1.raw), (-LIMIT, -LIMIT));
    let below = slab(Scalar::from_int(-1), Scalar::from_int(1), Scalar::from_int(-2), zero);
    assert_eq!((below.0.raw, below.1.raw), (LIMIT, LIMIT));
    let on_face = slab(Scalar::from_int(-1), Scalar::from_int(1), Scalar::from_int(-1), zero);
    assert_eq!((on_face.0.raw, on_face.1.raw), (0, LIMIT));
}

#[test]
fn on_plane_is_strictly_within_the_tolerance() {
    assert_eq!(FACE_EPSILON, 100_000);
    let at = Scalar::from_int(1);
    assert!(on_plane(at, at));
    assert!(on_plane(Scalar { raw: 1_000_099_999 }, at));
    assert!(on_plane(Scalar { raw: 999_900_001 }, at));
    assert!(!on_plane(Scalar { raw: 1_000_100_000 }, at));
    assert!(!on_plane(Scalar { raw: 999_900_000 }, at));
}

#[test]
fn ray_at_each_face_center_hits_with_that_faces_normal() {
    let cube = unit_cube();
    let cases = [
        (Vec3::from_ints(3, 0, -5), Vec3::unit_x(), tenths(5, 0, -50)),
        (Vec3::from_ints(-3, 0, -5), Vec3::unit_x().neg(), tenths(-5, 0, -50)),
        (Vec3::from_ints(0, 3, -5), Vec3::unit_y(), tenths(0, 5, -50)),
        (Vec3::from_ints(0, -3, -5), Vec3::unit_y().neg(), tenths(0, -5, -50)),
        (Vec3::from_ints(0, 0, -2), Vec3::unit_z(), tenths(0, 0, -45)),
        (Vec3::from_ints(0, 0, -8), Vec3::unit_z().neg(), tenths(0, 0, -55)),
    ];
    for (origin, normal, point) in cases {
        let hit = cube.ray_intersect(&origin, &normal.neg());
        assert!(hit.is_intersecting);
        assert_eq!(hit.normal, normal);
        assert_eq!(hit.point, point);
        assert_eq!(hit.distance, Scalar::from_ratio(25, 10));
        assert_eq!(hit.material.diffuse, Color::new(200, 50, 50));
    }
}

#[test]
fn ray_from_the_eye_hits_the_front_face() {
    let hit = unit_cube().ray_intersect(&Vec3::zeros(), &Vec3::unit_z().neg());
    assert!(hit.is_intersecting);
    assert_eq!(hit.point, tenths(0, 0, -45));
    assert_eq!(hit.normal, Vec3::unit_z());
    assert_eq!(hit.distance, Scalar::from_ratio(45, 10));
}

#[test]
fn oblique_ray_hits_where_the_slabs_first_overlap() {
    let cube = unit_cube();
    let origin = Vec3::from_ints(-2, 0, -3);
    let direction = Vec3::from_ints(1, 0, -1);
    let hit = cube.ray_intersect(&origin, &direction);
    assert!(hit.is_intersecting);
    assert_eq!(hit.distance, Scalar::from_ratio(15, 10));
    assert_eq!(hit.point, tenths(-5, 0, -45));
    assert_eq!(hit.normal, Vec3::unit_x().neg());
}

#[test]
fn ray_beside_the_cube_on_one_axis_misses() {
    let cube = unit_cube();
    let down_z = Vec3::unit_z().neg();
    assert!(!cube.ray_intersect(&Vec3::from_ints(2, 0, 0), &down_z).is_intersecting);
    assert!(!cube.ray_intersect(&Vec3::from_ints(-2, 0, 0), &down_z).is_intersecting);
    assert!(!cube.ray_intersect(&Vec3::from_ints(0, 2, 0), &down_z).is_intersecting);
    assert!(!cube.ray_intersect(&Vec3::from_ints(0, -2, 0), &down_z).is_intersecting);
    assert!(!cube.ray_intersect(&Vec3::from_ints(0, 0, 0), &Vec3::unit_x()).is_intersecting);
    assert!(!cube.ray_intersect(&tenths(6, 0, 0), &down_z).is_intersecting);
}

#[test]
fn oblique_ray_that_leaves_one_slab_before_entering_another_misses() {
    let cube = unit_cube();
    let hit = cube.ray_intersect(&Vec3::from_ints(-4, 0, -3), &Vec3::from_ints(1, 0, -1));
    assert!(!hit.is_intersecting);
    let hit = cube.ray_intersect(&Vec3::from_ints(0, 0, 0), &Vec3::from_ints(1, 1, -1));
    assert!(!hit.is_intersecting);
}

#[test]
fn ray_that_starts_past_the_cube_misses() {
    let cube = unit_cube();
    let origin = Vec3::from_ints(0, 0, -10);
    assert!(!cube.ray_intersect(&origin, &Vec3::unit_z().neg()).is_intersecting);
    let back = cube.ray_intersect(&origin, &Vec3::unit_z());
    assert!(back.is_intersecting);
    assert_eq!(back.normal, Vec3::unit_z().neg());
    assert_eq!(back.distance, Scalar::from_ratio(45, 10));
}

#[test]
fn ray_that_starts_inside_the_cube_misses() {
    let cube = unit_cube();
    assert!(!cube.ray_intersect(&Vec3::from_ints(0, 0, -5), &Vec3::unit_z().neg()).is_intersecting);
}

#[test]
fn ray_that_starts_on_a_face_hits_at_distance_zero() {
    let cube = unit_cube();
    let hit = cube.ray_intersect(&tenths(0, 0, -45), &Vec3::unit_z().neg());
    assert!(hit.is_intersecting);
    assert_eq!(hit.distance, Scalar::zero());
    assert_eq!(hit.normal, Vec3::unit_z());
}

#[test]
fn hit_on_an_edge_takes_the_first_face_in_order() {
    let cube = unit_cube();
    let hit = cube.ray_intersect(&tenths(-15, -15, -50), &Vec3::from_ints(1, 1, 0));
    assert!(hit.is_intersecting);
    assert_eq!(hit.distance, Scalar::one());
    assert_eq!(hit.point, tenths(-5, -5, -50));
    assert_eq!(hit.normal, Vec3::unit_x().neg());
    let hit = cube.ray_intersect(&tenths(0, 15, -35), &Vec3::from_ints(0, -1, -1));
    assert!(hit.is_intersecting);
    assert_eq!(hit.point, tenths(0, 5, -45));
    assert_eq!(hit.normal, Vec3::unit_y());
}

#[test]
fn face_normal_of_a_point_on_no_face_is_none() {
    let cube = unit_cube();
    assert_eq!(cube.face_normal(Vec3::from_ints(0, 0, -5)), None);
    assert_eq!(cube.face_normal(tenths(5, 5, -45)), Some(Vec3::unit_x()));
    assert_eq!(cube.face_normal(tenths(0, 0, -55)), Some(Vec3::unit_z().neg()));
    assert_eq!(cube.face_normal(tenths(0, -5, -50)), Some(Vec3::unit_y().neg()));
}

#[test]
fn hit_point_rounded_off_every_plane_takes_the_face_of_entry() {
    let cube = Cube { center: Vec3::zeros(), size: Scalar::from_int(2), material: red() };
    let fast = 300_000;
    let cases = [
        (Vec3::from_ints(-5, 0, 0), Vec3::from_ints(fast, 0, 0), Vec3::unit_x().neg()),
        (Vec3::from_ints(5, 0, 0), Vec3::from_ints(-fast, 0, 0), Vec3::unit_x()),
        (Vec3::from_ints(0, -5, 0), Vec3::from_ints(0, fast, 0), Vec3::unit_y().neg()),
        (Vec3::from_ints(0, 5, 0), Vec3::from_ints(0, -fast, 0), Vec3::unit_y()),
        (Vec3::from_ints(0, 0, -5), Vec3::from_ints(0, 0, fast), Vec3::unit_z().neg()),
        (Vec3::from_ints(0, 0, 5), Vec3::from_ints(0, 0, -fast), Vec3::unit_z()),
    ];
    for (origin, direction, normal) in cases {
        let hit = cube.ray_intersect(&origin, &direction);
        assert!(hit.is_intersecting);
        assert_eq!(hit.distance, Scalar { raw: 13_333 });
        assert_eq!(hit.point, normal.scale(Scalar { raw: 1_000_100_000 }));
        assert_eq!(cube.face_normal(hit.point), None);
        assert_eq!(hit.normal, normal);
    }
    let hit = cube.ray_intersect(&Vec3::from_ints(-5, -3, 0), &Vec3::from_ints(fast, 200_000, 0));
    assert!(hit.is_intersecting);
    assert_eq!(
        hit.point,
        Vec3::new(Scalar { raw: -1_000_100_000 }, Scalar { raw: -333_400_000 }, Scalar::zero())
    );
    assert_eq!(hit.normal, Vec3::unit_x().neg());
}

#[test]
fn entry_face_is_on_the_axis_entered_last_and_looks_back_at_the_ray() {
    let cube = unit_cube();
    let from = Vec3::from_ints(-3, 2, 0);
    assert_eq!(cube.entry_face_normal(from, Vec3::from_ints(1, -1, -2)), Vec3::unit_x().neg());
    assert_eq!(cube.entry_face_normal(from, Vec3::from_ints(3, -2, -5)), Vec3::unit_z());
    assert_eq!(
        cube.entry_face_normal(Vec3::from_ints(0, 3, -5), Vec3::unit_y().neg()),
        Vec3::unit_y()
    );
    assert_eq!(
        cube.entry_face_normal(Vec3::from_ints(0, -3, -5), Vec3::unit_y()),
        Vec3::unit_y().neg()
    );
    assert_eq!(
        cube.entry_face_normal(tenths(-15, -15, -50), Vec3::from_ints(1, 1, 0)),
        Vec3::unit_x().neg()
    );
    assert_eq!(cube.entry_face_normal(Vec3::from_ints(2, 0, -5), Vec3::zeros()), Vec3::unit_x());
    assert_eq!(
        cube.entry_face_normal(Vec3::from_ints(-2, 0, -5), Vec3::zeros()),
        Vec3::unit_x().neg()
    );
}

#[test]
fn miss_of_a_cube_is_the_empty_record() {
    let miss = unit_cube().ray_intersect(&Vec3::from_ints(2, 0, 0), &Vec3::unit_z().neg());
    assert!(!miss.is_intersecting);
    assert_eq!(miss.distance, Scalar::zero());
    assert_eq!(miss.point, Vec3::zeros());
    assert_eq!(miss.normal, Vec3::zeros());
    assert_eq!(miss.material.diffuse, Color::black());
}

#[test]
fn ray_that_does_not_move_misses_from_above_and_from_inside_the_cube() {
    let cube = unit_cube();
    assert!(!cube.ray_intersect(&Vec3::from_ints(2, 0, -5), &Vec3::zeros()).is_intersecting);
    assert!(!cube.ray_intersect(&Vec3::from_ints(0, 2, -5), &Vec3::zeros()).is_intersecting);
    assert!(!cube.ray_intersect(&Vec3::from_ints(0, 0, -2), &Vec3::zeros()).is_intersecting);
    assert!(!cube.ray_intersect(&Vec3::from_ints(0, 0, -5), &Vec3::zeros()).is_intersecting);
}

#[test]
fn ray_that_does_not_move_hits_from_below_as_far_as_numbers_go() {
    let cube = unit_cube();
    let origin = Vec3::from_ints(-2, 0, -5);
    let hit = cube.ray_intersect(&origin, &Vec3::zeros());
    assert!(hit.is_intersecting);
    assert_eq!(hit.distance.raw, LIMIT);
    assert_eq!(hit.point, origin);
    assert_eq!(hit.normal, Vec3::unit_x().neg());
    let hit = cube.ray_intersect(&Vec3::from_ints(0, -2, -5), &Vec3::zeros());
    assert!(hit.is_intersecting);
    assert_eq!(hit.distance.raw, LIMIT);
    assert_eq!(hit.normal, Vec3::unit_y().neg());
    let hit = cube.ray_intersect(&Vec3::from_ints(-2, -2, -8), &Vec3::zeros());
    assert!(hit.is_intersecting);
    assert_eq!(hit.normal, Vec3::unit_x().neg());
}

#[test]
fn hit_as_far_as_numbers_go_is_never_the_nearest() {
    let scene = [unit_cube()];
    let hit = nearest_hit(&Vec3::from_ints(-2, 0, -5), &Vec3::zeros(), &scene);
    assert!(!hit.is_intersecting);
}

#[test]
fn cube_smaller_than_the_tolerance_takes_the_first_face_in_order() {
    let tiny = Cube {
        center: Vec3::zeros(),
        size: Scalar { raw: 100_000 },
        material: red(),
    };
    let hit = tiny.ray_intersect(&Vec3::from_ints(0, 1, 0), &Vec3::unit_y().neg());
    assert!(hit.is_intersecting);
    assert_eq!(hit.point, Vec3::new(Scalar::zero(), Scalar { raw: 50_000 }, Scalar::zero()));
    assert_eq!(hit.normal, Vec3::unit_x().neg());
    let large_enough = Cube {
        center: Vec3::zeros(),
        size: Scalar { raw: 200_000 },
        material: red(),
    };
    let hit = large_enough.ray_intersect(&Vec3::from_ints(0, 1, 0), &Vec3::unit_y().neg());
    assert_eq!(hit.normal, Vec3::unit_y());
}
