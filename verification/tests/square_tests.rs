use raytracer::color::Color;
use raytracer::material::Material;
use raytracer::ray_intersect::RayIntersect;
use raytracer::scalar::{Scalar, LIMIT};
use raytracer::square::{Square, PARALLEL_EPSILON};
use raytracer::vector::Vec3;
use std::rc::Rc;

fn green() -> Rc<Material> {
    Rc::new(Material::new(
        Color::new(0, 255, 0),
        Scalar::from_ratio(1, 10),
        [Scalar::from_ratio(4, 10), Scalar::from_ratio(6, 10), Scalar::zero(), Scalar::zero()],
        Scalar::zero(),
        None,
        Color::black(),
    ))
}

fn lawn() -> Square {
    Square { center: Vec3::zeros(), size: Scalar::from_int(4), material: green() }
}

#[test]
fn ray_down_onto_the_square_hits_facing_up() {
    let hit = lawn().ray_intersect(&Vec3::from_ints(1, 5, -1), &Vec3::unit_y().neg());
    assert!(hit.is_intersecting);
    assert_eq!(hit.point, Vec3::from_ints(1, 0, -1));
    assert_eq!(hit.normal, Vec3::unit_y());
    assert_eq!(hit.distance, Scalar::from_int(5));
    assert_eq!(hit.material.diffuse, Color::new(0, 255, 0));
}

#[test]
fn ray_that_crosses_the_plane_outside_the_square_misses() {
    let down = Vec3::unit_y().neg();
    assert!(!lawn().ray_intersect(&Vec3::from_ints(3, 5, 0), &down).is_intersecting);
    assert!(!lawn().ray_intersect(&Vec3::from_ints(-3, 5, 0), &down).is_intersecting);
    assert!(!lawn().ray_intersect(&Vec3::from_ints(0, 5, 3), &down).is_intersecting);
    assert!(!lawn().ray_intersect(&Vec3::from_ints(0, 5, -3), &down).is_intersecting);
    let just_outside = Vec3::new(Scalar { raw: 2_000_000_001 }, Scalar::from_int(5), Scalar::zero());
    assert!(!lawn().ray_intersect(&just_outside, &down).is_intersecting);
}

#[test]
fn the_edge_of_the_square_belongs_to_it() {
    let down = Vec3::unit_y().neg();
    assert!(lawn().ray_intersect(&Vec3::from_ints(2, 5, 2), &down).is_intersecting);
    assert!(lawn().ray_intersect(&Vec3::from_ints(-2, 5, -2), &down).is_intersecting);
}

#[test]
fn oblique_ray_onto_the_square() {
    let hit = lawn().ray_intersect(&Vec3::from_ints(-3, 4, 0), &Vec3::from_ints(1, -2, 0));
    assert!(hit.is_intersecting);
    assert_eq!(hit.distance, Scalar::from_int(2));
    assert_eq!(hit.point, Vec3::from_ints(-1, 0, 0));
    assert_eq!(hit.normal, Vec3::unit_y());
    let miss = lawn().ray_intersect(&Vec3::from_ints(-3, 4, 0), &Vec3::from_ints(3, -2, 0));
    assert!(!miss.is_intersecting);
}

#[test]
fn ray_from_below_hits_and_still_faces_up() {
    let hit = lawn().ray_intersect(&Vec3::from_ints(0, -5, 0), &Vec3::unit_y());
    assert!(hit.is_intersecting);
    assert_eq!(hit.normal, Vec3::unit_y());
    assert_eq!(hit.distance, Scalar::from_int(5));
}

#[test]
fn ray_that_leads_away_from_the_plane_misses() {
    assert!(!lawn().ray_intersect(&Vec3::from_ints(0, 5, 0), &Vec3::unit_y()).is_intersecting);
    assert!(!lawn().ray_intersect(&Vec3::from_ints(0, -5, 0), &Vec3::unit_y().neg()).is_intersecting);
}

#[test]
fn ray_alongside_the_plane_misses() {
    assert_eq!(PARALLEL_EPSILON, 1_000);
    let origin = Vec3::from_ints(0, 5, 0);
    assert!(!lawn().ray_intersect(&origin, &Vec3::unit_x()).is_intersecting);
    let barely = Vec3::new(Scalar::zero(), Scalar { raw: -1_000 }, Scalar::zero());
    assert!(!lawn().ray_intersect(&origin, &barely).is_intersecting);
    let enough = Vec3::new(Scalar::zero(), Scalar { raw: -1_001 }, Scalar::zero());
    let hit = lawn().ray_intersect(&origin, &enough);
    assert!(hit.is_intersecting);
    assert_eq!(hit.point, Vec3::new(Scalar::zero(), Scalar { raw: 1 }, Scalar::zero()));
}

#[test]
fn miss_of_a_square_is_as_far_as_numbers_go() {
    let miss = lawn().ray_intersect(&Vec3::from_ints(3, 5, 0), &Vec3::unit_y().neg());
    assert!(!miss.is_intersecting);
    assert_eq!(miss.distance.raw, LIMIT);
    assert_eq!(miss.point, Vec3::zeros());
    assert_eq!(miss.normal, Vec3::zeros());
    assert_eq!(miss.material.diffuse, Color::new(0, 255, 0));
}

#[test]
fn square_at_a_height() {
    let raised = Square {
        center: Vec3::new(Scalar::from_int(-2), Scalar::from_ratio(7, 10), Scalar::from_int(-4)),
        size: Scalar::from_int(10),
        material: green(),
    };
    assert_eq!(raised.half_size(), Scalar::from_int(5));
    let hit = raised.ray_intersect(&Vec3::from_ints(0, 2, 0), &Vec3::unit_y().neg());
    assert!(hit.is_intersecting);
    assert_eq!(hit.distance, Scalar::from_ratio(13, 10));
    assert_eq!(hit.point, Vec3::new(Scalar::zero(), Scalar::from_ratio(7, 10), Scalar::zero()));
    assert!(raised.is_point_inside(&Vec3::from_ints(3, 9, 1)));
    assert!(!raised.is_point_inside(&Vec3::from_ints(4, 0, 0)));
    assert!(raised.is_point_inside(&Vec3::from_ints(-7, 0, -9)));
    assert!(!raised.is_point_inside(&Vec3::from_ints(0, 0, -10)));
}
