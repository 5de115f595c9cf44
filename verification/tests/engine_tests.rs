use image::{DynamicImage, Rgb, RgbImage};
use raytracer::color::Color;
use raytracer::cube::Cube;
use raytracer::engine::{
    calculate_uv, cast_ray, cast_shadow, compose, dominant_axis, nearest_hit, offset_origin,
    reflect, refract, shadow_of, sky_color, MAX_DEPTH, ORIGIN_BIAS, TILE_SIZE,
};
use raytracer::light::Light;
use raytracer::material::Material;
use raytracer::ray_intersect::Intersect;
use raytracer::scalar::Scalar;
use raytracer::shape::Shape;
use raytracer::square::Square;
use raytracer::texture::Texture;
use raytracer::vector::Vec3;
use std::rc::Rc;

fn raw(x: i64, y: i64, z: i64) -> Vec3 {
    Vec3::new(Scalar { raw: x }, Scalar { raw: y }, Scalar { raw: z })
}

fn tenths(n: i64) -> Scalar {
    Scalar::from_ratio(n, 10)
}

fn surface(diffuse: Color, specular: i64, albedo: [i64; 4], index: i64, glow: Color) -> Rc<Material> {
    Rc::new(Material::new(
        diffuse,
        Scalar::from_int(specular),
        [tenths(albedo[0]), tenths(albedo[1]), tenths(albedo[2]), tenths(albedo[3])],
        tenths(index),
        None,
        glow,
    ))
}

fn red() -> Rc<Material> {
    surface(Color::new(200, 50, 50), 10, [9, 1, 0, 0], 0, Color::black())
}

fn mirror() -> Rc<Material> {
    surface(Color::new(100, 100, 100), 50, [5, 3, 4, 0], 0, Color::black())
}

fn glass() -> Rc<Material> {
    surface(Color::new(100, 100, 100), 50, [1, 3, 1, 8], 15, Color::black())
}

fn cube(z: i64, size: i64, material: Rc<Material>) -> Shape {
    Shape::Cube(Cube { center: Vec3::from_ints(0, 0, z), size: Scalar::from_int(size), material })
}

fn white_light(x: i64, y: i64, z: i64) -> Light {
    Light::new(Vec3::from_ints(x, y, z), Color::new(255, 255, 255), Scalar::one())
}

fn floor_hit() -> Intersect {
    Intersect::new(Vec3::zeros(), Vec3::unit_y(), Scalar::one(), red())
}

fn ceiling(height: i64) -> Shape {
    Shape::Square(Square {
        center: Vec3::from_ints(0, height, 0),
        size: Scalar::from_int(2),
        material: red(),
    })
}

#[test]
fn engine_constants() {
    assert_eq!(ORIGIN_BIAS, 100_000);
    assert_eq!(TILE_SIZE, 500_000_000);
    assert_eq!(MAX_DEPTH, 3);
}

#[test]
fn sky_is_blue_by_day_and_dark_by_night() {
    assert_eq!(sky_color(true), Color::new(68, 142, 228));
    assert_eq!(sky_color(false), Color::new(25, 25, 112));
}

#[test]
fn offset_origin_moves_off_the_surface_toward_the_ray() {
    let hit = floor_hit();
    assert_eq!(offset_origin(&hit, &Vec3::unit_y()), raw(0, 100_000, 0));
    assert_eq!(offset_origin(&hit, &Vec3::unit_y().neg()), raw(0, -100_000, 0));
    assert_eq!(offset_origin(&hit, &Vec3::unit_x()), raw(0, 100_000, 0));
    assert_eq!(offset_origin(&hit, &raw(5, -1, 0)), raw(0, -100_000, 0));
}

#[test]
fn reflect_mirrors_in_the_surface() {
    let up = Vec3::unit_y();
    assert_eq!(reflect(&raw(600_000_000, -800_000_000, 0), &up), raw(600_000_000, 800_000_000, 0));
    assert_eq!(reflect(&Vec3::from_ints(1, -1, 0), &up), Vec3::from_ints(1, 1, 0));
    assert_eq!(reflect(&Vec3::unit_x(), &up), Vec3::unit_x());
    let incident = Vec3::new(Scalar::from_ratio(1, 3), Scalar::from_ratio(-2, 3), Scalar::from_ratio(1, 7));
    let normal = Vec3::from_ints(1, 2, 3).normalize();
    assert_eq!(reflect(&incident, &normal), raw(414_965_985, -503_401_360, 387_755_101));
}

#[test]
fn reflect_is_the_same_from_either_side() {
    let incident = Vec3::new(Scalar::from_ratio(1, 3), Scalar::from_ratio(-2, 3), Scalar::from_ratio(1, 7));
    let normal = Vec3::from_ints(1, 2, 3).normalize();
    assert_eq!(reflect(&incident, &normal.neg()), reflect(&incident, &normal));
}

#[test]
fn refract_straight_on_goes_straight_through() {
    let down = Vec3::unit_y().neg();
    let up = Vec3::unit_y();
    assert_eq!(refract(&down, &up, Scalar::one()), down);
    assert_eq!(refract(&down, &up, tenths(15)), down);
}

#[test]
fn refract_bends_an_oblique_ray() {
    let incident = raw(600_000_000, -800_000_000, 0);
    assert_eq!(refract(&incident, &Vec3::unit_y(), tenths(15)), raw(900_000_000, -435_889_894, 0));
    assert_eq!(refract(&incident, &Vec3::unit_y(), Scalar::one()), incident);
}

#[test]
fn refract_without_a_transmitted_ray_is_reflect() {
    let up = Vec3::unit_y();
    let grazing = Vec3::new(Scalar::one(), tenths(-1), Scalar::zero()).normalize();
    assert_eq!(grazing, raw(995_037_190, -99_503_719, 0));
    assert_eq!(refract(&grazing, &up, tenths(15)), raw(995_037_190, 99_503_719, 0));
    assert_eq!(refract(&grazing, &up, tenths(15)), reflect(&grazing, &up));
}

#[test]
fn refract_from_inside_without_a_transmitted_ray_is_reflect() {
    let up = Vec3::unit_y();
    let leaving = Vec3::new(Scalar::one(), tenths(1), Scalar::zero()).normalize();
    assert_eq!(refract(&leaving, &up, tenths(5)), raw(995_037_190, -99_503_719, 0));
    assert_eq!(refract(&leaving, &up, tenths(5)), reflect(&leaving, &up));
}

#[test]
fn shadow_of_falls_with_the_square_of_the_distance() {
    assert_eq!(shadow_of(Scalar::from_int(1), Scalar::from_int(2)).raw, 750_000_000);
    assert_eq!(shadow_of(Scalar::from_int(1), Scalar::from_int(3)).raw, 888_888_890);
    assert_eq!(shadow_of(Scalar::zero(), Scalar::from_int(3)).raw, 1_000_000_000);
    assert_eq!(shadow_of(Scalar::from_int(3), Scalar::from_int(2)).raw, 0);
    assert_eq!(shadow_of(Scalar::from_int(1), Scalar::zero()).raw, 0);
}

#[test]
fn nothing_in_the_way_casts_no_shadow() {
    let light = white_light(0, 4, 0);
    let none: Vec<Shape> = Vec::new();
    assert_eq!(cast_shadow(&floor_hit(), &light, &none), Scalar::zero());
    assert_eq!(cast_shadow(&floor_hit(), &light, &[ceiling(5)]), Scalar::zero());
    let aside = Shape::Square(Square {
        center: Vec3::from_ints(10, 1, 0),
        size: Scalar::from_int(2),
        material: red(),
    });
    assert_eq!(cast_shadow(&floor_hit(), &light, &[aside]), Scalar::zero());
}

#[test]
fn blocker_casts_a_shadow_by_its_distance() {
    let light = white_light(0, 4, 0);
    assert_eq!(cast_shadow(&floor_hit(), &light, &[ceiling(1)]).raw, 937_512_500);
    assert_eq!(cast_shadow(&floor_hit(), &light, &[ceiling(3)]).raw, 437_537_500);
    let block = Shape::Cube(Cube {
        center: Vec3::from_ints(0, 2, 0),
        size: Scalar::one(),
        material: red(),
    });
    assert_eq!(cast_shadow(&floor_hit(), &light, &[block]).raw, 859_393_750);
}

#[test]
fn first_blocker_in_the_order_of_the_scene_decides_the_shadow() {
    let light = white_light(0, 4, 0);
    assert_eq!(cast_shadow(&floor_hit(), &light, &[ceiling(3), ceiling(1)]).raw, 437_537_500);
    assert_eq!(cast_shadow(&floor_hit(), &light, &[ceiling(1), ceiling(3)]).raw, 937_512_500);
    assert_eq!(cast_shadow(&floor_hit(), &light, &[ceiling(5), ceiling(3), ceiling(1)]).raw, 437_537_500);
}

#[test]
fn shadow_toward_an_oblique_light() {
    let light = white_light(3, 4, 0);
    let wide = Shape::Square(Square {
        center: Vec3::from_ints(0, 1, 0),
        size: Scalar::from_int(4),
        material: red(),
    });
    assert_eq!(cast_shadow(&floor_hit(), &light, &[wide]).raw, 937_512_500);
}

#[test]
fn uv_projects_along_the_longest_axis_of_the_normal() {
    let size = Scalar { raw: TILE_SIZE };
    let quarter = Scalar::from_ratio(1, 4);
    let eighth = Scalar::from_ratio(-1, 8);
    let nine = Scalar::from_int(9);
    let a = Scalar { raw: 750_000_000 };
    let b = Scalar { raw: 375_000_000 };
    assert_eq!(calculate_uv(Vec3::unit_y(), Vec3::new(quarter, nine, eighth), size), (a, b));
    assert_eq!(calculate_uv(Vec3::unit_x(), Vec3::new(nine, quarter, eighth), size), (b, a));
    assert_eq!(calculate_uv(Vec3::unit_z(), Vec3::new(quarter, eighth, nine), size), (a, b));
    assert_eq!(calculate_uv(Vec3::unit_y().neg(), Vec3::new(quarter, nine, eighth), size), (a, b));
}

#[test]
fn dominant_axis_is_the_longest_of_the_normal() {
    assert_eq!(dominant_axis(Vec3::unit_x()), 0);
    assert_eq!(dominant_axis(Vec3::unit_y()), 1);
    assert_eq!(dominant_axis(Vec3::unit_z()), 2);
    assert_eq!(dominant_axis(Vec3::unit_x().neg()), 0);
    assert_eq!(dominant_axis(Vec3::unit_y().neg()), 1);
    assert_eq!(dominant_axis(Vec3::unit_z().neg()), 2);
    assert_eq!(dominant_axis(Vec3::from_ints(2, 2, 3)), 2);
    assert_eq!(dominant_axis(Vec3::from_ints(1, -3, 2)), 1);
    assert_eq!(dominant_axis(Vec3::from_ints(-3, 1, 2)), 0);
}

#[test]
fn dominant_axis_of_equally_long_axes_goes_by_the_order_y_x_z() {
    assert_eq!(dominant_axis(Vec3::from_ints(1, 1, 0)), 1);
    assert_eq!(dominant_axis(Vec3::from_ints(-1, 1, 0)), 1);
    assert_eq!(dominant_axis(Vec3::from_ints(0, 1, 1)), 1);
    assert_eq!(dominant_axis(Vec3::from_ints(1, 1, 1)), 1);
    assert_eq!(dominant_axis(Vec3::zeros()), 1);
    assert_eq!(dominant_axis(Vec3::from_ints(1, 0, 1)), 0);
    assert_eq!(dominant_axis(Vec3::from_ints(1, 0, -1)), 0);
    assert_eq!(dominant_axis(Vec3::from_ints(3, 2, 3)), 0);
    assert_eq!(dominant_axis(Vec3::from_ints(2, 3, 3)), 1);
}

#[test]
fn uv_of_equally_long_axes_goes_by_the_order_y_x_z() {
    let size = Scalar { raw: TILE_SIZE };
    let point = Vec3::new(Scalar::from_ratio(1, 4), Scalar::from_ratio(1, 8), Scalar::from_ratio(-1, 4));
    let along_y = (Scalar { raw: 750_000_000 }, Scalar { raw: 250_000_000 });
    let along_x = (Scalar { raw: 250_000_000 }, Scalar { raw: 625_000_000 });
    let along_z = (Scalar { raw: 750_000_000 }, Scalar { raw: 625_000_000 });
    assert_eq!(calculate_uv(Vec3::unit_y(), point, size), along_y);
    assert_eq!(calculate_uv(Vec3::unit_x(), point, size), along_x);
    assert_eq!(calculate_uv(Vec3::unit_z(), point, size), along_z);
    assert_eq!(calculate_uv(Vec3::from_ints(1, 1, 0), point, size), along_y);
    assert_eq!(calculate_uv(Vec3::from_ints(-1, 1, 0), point, size), along_y);
    assert_eq!(calculate_uv(Vec3::from_ints(0, 1, 1), point, size), along_y);
    assert_eq!(calculate_uv(Vec3::from_ints(1, 1, 1), point, size), along_y);
    assert_eq!(calculate_uv(Vec3::zeros(), point, size), along_y);
    assert_eq!(calculate_uv(Vec3::from_ints(1, 0, 1), point, size), along_x);
    assert_eq!(calculate_uv(Vec3::from_ints(1, 0, -1), point, size), along_x);
    assert_eq!(calculate_uv(Vec3::from_ints(3, 2, 3), point, size), along_x);
    assert_eq!(calculate_uv(Vec3::from_ints(2, 3, 3), point, size), along_y);
    assert_eq!(calculate_uv(Vec3::from_ints(2, 2, 3), point, size), along_z);
}

#[test]
fn uv_stays_between_zero_and_one() {
    let size = Scalar { raw: TILE_SIZE };
    assert_eq!(
        calculate_uv(Vec3::unit_z(), Vec3::from_ints(5, -5, 0), size),
        (Scalar::one(), Scalar::zero())
    );
    assert_eq!(
        calculate_uv(Vec3::zeros(), Vec3::from_ints(5, -5, 0), size),
        (Scalar::one(), Scalar::from_ratio(1, 2))
    );
    assert_eq!(
        calculate_uv(
            Vec3::unit_y(),
            Vec3::new(Scalar::from_ratio(1, 4), Scalar::zero(), Scalar::from_ratio(1, 8)),
            Scalar::one()
        ),
        (Scalar { raw: 625_000_000 }, Scalar { raw: 562_500_000 })
    );
}

#[test]
fn nearest_hit_is_the_closest_whatever_the_order() {
    let origin = Vec3::zeros();
    let direction = Vec3::unit_z().neg();
    let glow = surface(Color::new(1, 2, 3), 10, [9, 1, 0, 0], 0, Color::new(10, 20, 250));
    let far_first = [cube(-5, 1, red()), cube(-3, 1, glow.clone())];
    let hit = nearest_hit(&origin, &direction, &far_first);
    assert!(hit.is_intersecting);
    assert_eq!(hit.distance, Scalar::from_ratio(25, 10));
    assert_eq!(hit.material.diffuse, Color::new(1, 2, 3));
    let near_first = [cube(-3, 1, glow), cube(-5, 1, red())];
    let hit = nearest_hit(&origin, &direction, &near_first);
    assert_eq!(hit.distance, Scalar::from_ratio(25, 10));
    assert_eq!(hit.material.diffuse, Color::new(1, 2, 3));
}

#[test]
fn nearest_hit_of_equal_distances_is_the_first() {
    let origin = Vec3::zeros();
    let direction = Vec3::unit_z().neg();
    let other = surface(Color::new(1, 2, 3), 10, [9, 1, 0, 0], 0, Color::black());
    let hit = nearest_hit(&origin, &direction, &[cube(-5, 1, red()), cube(-5, 1, other)]);
    assert_eq!(hit.material.diffuse, Color::new(200, 50, 50));
}

#[test]
fn nearest_hit_of_nothing_is_a_miss() {
    let none: Vec<Shape> = Vec::new();
    let hit = nearest_hit(&Vec3::zeros(), &Vec3::unit_z().neg(), &none);
    assert!(!hit.is_intersecting);
    let hit = nearest_hit(&Vec3::zeros(), &Vec3::unit_z(), &[cube(-5, 1, red())]);
    assert!(!hit.is_intersecting);
}

#[test]
fn compose_without_reflection_or_transparency_adds_the_local_terms() {
    let diffuse = Color::new(100, 20, 3);
    let specular = Color::new(50, 50, 50);
    let material = surface(Color::new(1, 1, 1), 10, [9, 1, 0, 0], 0, Color::new(5, 6, 250));
    let expected = diffuse.add(specular).add(Color::new(5, 6, 250));
    assert_eq!(expected, Color::new(155, 76, 255));
    assert_eq!(
        compose(diffuse, specular, Color::new(255, 255, 255), Color::new(9, 99, 199), &material),
        expected
    );
    assert_eq!(compose(diffuse, specular, Color::black(), Color::black(), &material), expected);
}

#[test]
fn compose_mixes_by_reflectivity_and_transparency() {
    let material = surface(Color::new(1, 1, 1), 10, [9, 1, 3, 5], 0, Color::new(1, 2, 3));
    let composed = compose(
        Color::new(100, 100, 100),
        Color::new(50, 0, 0),
        Color::new(200, 10, 0),
        Color::new(0, 100, 255),
        &material,
    );
    assert_eq!(composed, Color::new(91, 75, 150));
}

#[test]
fn cast_ray_past_the_depth_limit_is_the_sky() {
    let light = white_light(0, 0, 5);
    let scene = [cube(-5, 1, red())];
    let origin = Vec3::zeros();
    let direction = Vec3::unit_z().neg();
    assert_eq!(cast_ray(&origin, &direction, &scene, &light, 4, true), Color::new(68, 142, 228));
    assert_eq!(cast_ray(&origin, &direction, &scene, &light, 4, false), Color::new(25, 25, 112));
    assert_eq!(cast_ray(&origin, &direction, &scene, &light, u32::MAX, true), Color::new(68, 142, 228));
    assert_eq!(cast_ray(&origin, &direction, &scene, &light, 3, true), Color::new(205, 70, 70));
}

#[test]
fn cast_ray_that_hits_nothing_is_the_sky() {
    let light = white_light(0, 0, 5);
    let scene = [cube(-5, 1, red())];
    let origin = Vec3::zeros();
    assert_eq!(cast_ray(&origin, &Vec3::unit_x(), &scene, &light, 0, true), Color::new(68, 142, 228));
    assert_eq!(cast_ray(&origin, &Vec3::unit_x(), &scene, &light, 0, false), Color::new(25, 25, 112));
    let none: Vec<Shape> = Vec::new();
    assert_eq!(cast_ray(&origin, &Vec3::unit_z(), &none, &light, 0, true), Color::new(68, 142, 228));
}

#[test]
fn cast_ray_onto_an_opaque_surface_is_its_local_shading() {
    let light = white_light(0, 0, 5);
    let origin = Vec3::zeros();
    let direction = Vec3::unit_z().neg();
    assert_eq!(cast_ray(&origin, &direction, &[cube(-5, 1, red())], &light, 0, true), Color::new(205, 70, 70));
    assert_eq!(cast_ray(&origin, &direction, &[cube(-5, 1, red())], &light, 0, false), Color::new(205, 70, 70));
}

#[test]
fn cast_ray_adds_the_glow_of_the_material() {
    let light = white_light(0, 0, 5);
    let glow = surface(Color::new(200, 50, 50), 10, [9, 1, 0, 0], 0, Color::new(10, 20, 250));
    let color = cast_ray(&Vec3::zeros(), &Vec3::unit_z().neg(), &[cube(-5, 1, glow)], &light, 0, true);
    assert_eq!(color, Color::new(215, 90, 255));
    assert_eq!(color, Color::new(205, 70, 70).add(Color::new(10, 20, 250)));
}

#[test]
fn cast_ray_onto_a_mirror_mixes_in_what_the_mirror_sees() {
    let origin = Vec3::zeros();
    let direction = Vec3::unit_z().neg();
    let front = white_light(0, 0, 5);
    let alone = [cube(-5, 1, mirror())];
    assert_eq!(cast_ray(&origin, &direction, &alone, &front, 0, true), Color::new(102, 131, 166));
    assert_eq!(cast_ray(&origin, &direction, &alone, &front, 0, false), Color::new(85, 85, 119));
    let above = white_light(0, 3, 0);
    let facing = [cube(-5, 1, mirror()), cube(5, 1, red())];
    assert_eq!(cast_ray(&origin, &direction, &facing, &above, 0, true), Color::new(84, 40, 40));
    assert_eq!(cast_ray(&origin, &direction, &facing, &above, 3, true), Color::new(51, 80, 115));
}

#[test]
fn cast_ray_through_glass_mixes_in_what_lies_behind() {
    let origin = Vec3::zeros();
    let direction = Vec3::unit_z().neg();
    let above = white_light(0, 3, 0);
    assert_eq!(
        cast_ray(&origin, &direction, &[cube(-5, 1, glass())], &above, 0, true),
        Color::new(60, 127, 204)
    );
    let scene = [cube(-5, 1, glass()), cube(-9, 2, red())];
    assert_eq!(cast_ray(&origin, &direction, &scene, &above, 0, true), Color::new(150, 57, 65));
}

#[test]
fn cast_ray_along_an_oblique_direction() {
    let origin = Vec3::zeros();
    let direction = Vec3::new(Scalar::from_ratio(1, 10), Scalar::from_ratio(1, 20), Scalar::from_int(-1)).normalize();
    assert_eq!(direction, raw(99_380_799, 49_690_399, -993_807_990));
    let above = white_light(0, 3, 0);
    let through = [cube(-5, 1, glass()), cube(-9, 2, red())];
    assert_eq!(cast_ray(&origin, &direction, &through, &above, 0, true), Color::new(152, 58, 66));
    let facing = [cube(-5, 1, mirror()), cube(5, 1, red())];
    assert_eq!(cast_ray(&origin, &direction, &facing, &above, 0, false), Color::new(35, 35, 69));
}

#[test]
fn cast_ray_onto_shadowed_ground_is_darker() {
    let grass = Rc::new(Material::new(
        Color::new(0, 255, 0),
        Scalar::from_ratio(1, 10),
        [tenths(9), tenths(1), Scalar::zero(), Scalar::zero()],
        Scalar::zero(),
        None,
        Color::black(),
    ));
    let ground = |material: Rc<Material>| {
        Shape::Square(Square { center: Vec3::zeros(), size: Scalar::from_int(20), material })
    };
    let block = Shape::Cube(Cube {
        center: Vec3::from_ints(0, 2, 0),
        size: Scalar::one(),
        material: red(),
    });
    let light = white_light(0, 6, 0);
    let eye = Vec3::from_ints(3, 3, 0);
    let direction = Vec3::from_ints(-3, -3, 0).normalize();
    assert_eq!(direction, raw(-707_106_781, -707_106_781, 0));
    let shadowed = cast_ray(&eye, &direction, &[ground(grass.clone()), block], &light, 0, true);
    let lit = cast_ray(&eye, &direction, &[ground(grass)], &light, 0, true);
    assert_eq!(shadowed, Color::new(1, 15, 1));
    assert_eq!(lit, Color::new(24, 253, 24));
}

#[test]
fn cast_ray_onto_a_textured_face_shows_the_texel_under_the_hit() {
    let image = RgbImage::from_fn(2, 2, |x, y| {
        let base = (3 * (2 * y + x)) as u8;
        Rgb([base + 1, base + 2, base + 3])
    });
    let texture = Texture::from_image(DynamicImage::ImageRgb8(image)).unwrap();
    let material = Rc::new(Material::new(
        Color::new(200, 50, 50),
        Scalar::from_int(10),
        [Scalar::one(), Scalar::zero(), Scalar::zero(), Scalar::zero()],
        Scalar::zero(),
        Some(Rc::new(texture)),
        Color::black(),
    ));
    let scene = [cube(-5, 1, material)];
    let light = white_light(0, 0, 0);
    let origin = Vec3::zeros();
    let toward = |x: i64, y: i64| {
        Vec3::new(Scalar::from_ratio(x, 20), Scalar::from_ratio(y, 20), Scalar::from_int(-1)).normalize()
    };
    assert_eq!(cast_ray(&origin, &Vec3::unit_z().neg(), &scene, &light, 0, true), Color::new(10, 11, 12));
    assert_eq!(cast_ray(&origin, &toward(-1, -1), &scene, &light, 0, true), Color::new(0, 1, 2));
    assert_eq!(cast_ray(&origin, &toward(1, -1), &scene, &light, 0, true), Color::new(3, 4, 5));
    assert_eq!(cast_ray(&origin, &toward(-1, 1), &scene, &light, 0, true), Color::new(6, 7, 8));
    assert_eq!(cast_ray(&origin, &toward(1, 1), &scene, &light, 0, true), Color::new(9, 10, 11));
}
