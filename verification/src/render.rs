//! The rendering pass: one primary ray per pixel.

use vstd::prelude::*;
use vstd::arithmetic::div_mod::lemma_fundamental_div_mod_converse;
use crate::camera::{lemma_straight_camera_keeps_directions, Camera};
use crate::color::Color;
use crate::cube::{
    lemma_face_center_hit, lemma_face_ray_start, lemma_moving_away_misses, Cube, FACE_EPSILON,
};
use crate::engine::{
    cast_ray, lemma_diffuse_surface_facing_light, lemma_unblocked_is_lit, light_direction,
    light_distance, nearest_in, purely_diffuse, spec_cast_ray, spec_cast_shadow, spec_nearest_hit,
    spec_offset_origin, ORIGIN_BIAS,
};
use crate::framebuffer::Framebuffer;
use crate::light::Light;
use crate::ray_intersect::RayIntersect;
use crate::scalar::{
    lemma_div_by_units, lemma_isqrt_unique, lemma_mul_by_units, lemma_quotient_neg,
    lemma_quotient_of_multiple, magnitude, Scalar, LIMIT, SCALE,
};
use crate::vector::{lemma_axis_is_unit, lemma_normalize_along_axis, Vec3};

verus! {

/// The tangent of half the field of view of sixty degrees, in raw units.
pub const PERSPECTIVE_SCALE: i64 = 577_350_269;

/// Column `x` of `width` on a scale from minus one at the left edge to one
/// at the right edge.
pub open spec fn spec_screen_x(x: usize, width: usize) -> Scalar {
    Scalar::spec_from_int(2).spec_mul(Scalar::spec_from_usize(x)).spec_div(
        Scalar::spec_from_usize(width),
    ).spec_sub(Scalar::spec_one())
}

/// Row `y` of `height` on a scale from one at the top edge to minus one at
/// the bottom edge.
pub open spec fn spec_screen_y(y: usize, height: usize) -> Scalar {
    Scalar::spec_from_int(2).spec_mul(Scalar::spec_from_usize(y)).spec_neg().spec_div(
        Scalar::spec_from_usize(height),
    ).spec_add(Scalar::spec_one())
}

/// The unit direction, in the camera's own axes, of the ray through pixel
/// `(x, y)` of a screen of `width` by `height` pixels.
pub open spec fn spec_primary_direction(x: usize, y: usize, width: usize, height: usize) -> Vec3 {
    let aspect_ratio = Scalar::spec_from_usize(width).spec_div(Scalar::spec_from_usize(height));
    let perspective_scale = Scalar { raw: PERSPECTIVE_SCALE };
    Vec3 {
        x: spec_screen_x(x, width).spec_mul(aspect_ratio).spec_mul(perspective_scale),
        y: spec_screen_y(y, height).spec_mul(perspective_scale),
        z: Scalar::spec_one().spec_neg(),
    }.spec_normalize()
}

/// The colour of pixel `(x, y)`: what the ray from the eye through that
/// pixel sees.
pub open spec fn spec_pixel_color<T: RayIntersect>(
    x: usize,
    y: usize,
    width: usize,
    height: usize,
    objects: Seq<T>,
    camera: Camera,
    light: Light,
    is_day: bool,
) -> Color {
    spec_cast_ray(
        camera.eye,
        camera.spec_base_change(spec_primary_direction(x, y, width, height)),
        objects,
        light,
        0,
        is_day,
    )
}

pub fn primary_direction(x: usize, y: usize, width: usize, height: usize) -> (direction: Vec3)
    ensures
        direction == spec_primary_direction(x, y, width, height),
{
    let width_s = Scalar::from_usize(width);
    let height_s = Scalar::from_usize(height);
    let aspect_ratio = width_s.div(height_s);
    let perspective_scale = Scalar { raw: PERSPECTIVE_SCALE };

    let screen_x = Scalar::from_int(2).mul(Scalar::from_usize(x)).div(width_s).sub(Scalar::one());
    let screen_y = Scalar::from_int(2).mul(Scalar::from_usize(y)).neg().div(height_s).add(
        Scalar::one(),
    );

    let screen_x = screen_x.mul(aspect_ratio).mul(perspective_scale);
    let screen_y = screen_y.mul(perspective_scale);

    Vec3::new(screen_x, screen_y, Scalar::one().neg()).normalize()
}

/// The colour of the pixel at place `i` of a buffer that stores a screen of
/// `width` by `height` pixels row by row.
#[verifier::opaque]
pub open spec fn spec_stored_color<T: RayIntersect>(
    i: int,
    width: usize,
    height: usize,
    objects: Seq<T>,
    camera: Camera,
    light: Light,
    is_day: bool,
) -> u32 {
    spec_pixel_color(
        (i % width as int) as usize,
        (i / width as int) as usize,
        width,
        height,
        objects,
        camera,
        light,
        is_day,
    ).spec_to_hex()
}

/// The colour stored at the place of pixel `(x, y)` is the colour of that
/// pixel.
proof fn lemma_stored_color_of_pixel<T: RayIntersect>(
    x: usize,
    y: usize,
    width: usize,
    height: usize,
    objects: Seq<T>,
    camera: Camera,
    light: Light,
    is_day: bool,
)
    requires
        x < width,
    ensures
        spec_stored_color(y * width + x, width, height, objects, camera, light, is_day)
            == spec_pixel_color(x, y, width, height, objects, camera, light, is_day).spec_to_hex(),
{
    reveal(spec_stored_color);
    lemma_fundamental_div_mod_converse(y * width + x, width as int, y as int, x as int);
}

/// Fills pixel `(x, y)` with the colour that the scene shows through it,
/// which becomes the current colour. Outside the grid nothing is drawn.
pub fn render_pixel<T: RayIntersect>(
    framebuffer: &mut Framebuffer,
    x: usize,
    y: usize,
    objects: &[T],
    camera: &Camera,
    light: &Light,
    is_day: bool,
)
    ensures
        final(framebuffer).spec_width() == old(framebuffer).spec_width(),
        final(framebuffer).spec_height() == old(framebuffer).spec_height(),
        final(framebuffer).background() == old(framebuffer).background(),
        x < old(framebuffer).spec_width() && y < old(framebuffer).spec_height() ==> final(framebuffer)@
            == old(framebuffer)@.update(
            y * old(framebuffer).spec_width() + x,
            spec_pixel_color(
                x,
                y,
                old(framebuffer).spec_width(),
                old(framebuffer).spec_height(),
                objects@,
                *camera,
                *light,
                is_day,
            ).spec_to_hex(),
        ),
        !(x < old(framebuffer).spec_width() && y < old(framebuffer).spec_height()) ==> final(framebuffer)@
            == old(framebuffer)@,
        final(framebuffer).pen() == spec_pixel_color(
            x,
            y,
            old(framebuffer).spec_width(),
            old(framebuffer).spec_height(),
            objects@,
            *camera,
            *light,
            is_day,
        ).spec_to_hex(),
{
    let ray_direction = primary_direction(x, y, framebuffer.width(), framebuffer.height());
    let rotated_direction = camera.base_change(&ray_direction);
    let pixel_color = cast_ray(&camera.eye, &rotated_direction, objects, light, 0, is_day);

    framebuffer.set_current_color(pixel_color.to_hex());
    framebuffer.point(x, y);
}

/// Fills every pixel of the framebuffer with the colour that the scene shows
/// through it, row by row. The colour of the last pixel stays the current
/// colour.
pub fn render<T: RayIntersect>(
    framebuffer: &mut Framebuffer,
    objects: &[T],
    camera: &Camera,
    light: &Light,
    is_day: bool,
)
    ensures
        final(framebuffer).spec_width() == old(framebuffer).spec_width(),
        final(framebuffer).spec_height() == old(framebuffer).spec_height(),
        final(framebuffer).background() == old(framebuffer).background(),
        final(framebuffer)@.len() == old(framebuffer)@.len(),
        forall|x: int, y: int|
            0 <= x < old(framebuffer).spec_width() && 0 <= y < old(framebuffer).spec_height()
                ==> #[trigger] final(framebuffer).pixel(x, y) == spec_pixel_color(
                x as usize,
                y as usize,
                old(framebuffer).spec_width(),
                old(framebuffer).spec_height(),
                objects@,
                *camera,
                *light,
                is_day,
            ).spec_to_hex(),
        final(framebuffer).pen() == if old(framebuffer).spec_width() > 0 && old(framebuffer).spec_height()
            > 0 {
            spec_pixel_color(
                (old(framebuffer).spec_width() - 1) as usize,
                (old(framebuffer).spec_height() - 1) as usize,
                old(framebuffer).spec_width(),
                old(framebuffer).spec_height(),
                objects@,
                *camera,
                *light,
                is_day,
            ).spec_to_hex()
        } else {
            old(framebuffer).pen()
        },
{
    let width = framebuffer.width();
    let height = framebuffer.height();
    let pixels = framebuffer.buffer().len();

    let mut y: usize = 0;
    while y < height
        invariant
            y <= height,
            width == framebuffer.spec_width(),
            height == framebuffer.spec_height(),
            framebuffer.background() == old(framebuffer).background(),
            framebuffer@.len() == pixels,
            pixels == width * height,
            framebuffer.pen() == if y * width > 0 {
                spec_stored_color(y * width - 1, width, height, objects@, *camera, *light, is_day)
            } else {
                old(framebuffer).pen()
            },
            forall|i: int|
                0 <= i < y * width ==> #[trigger] framebuffer@[i] == spec_stored_color(
                    i,
                    width,
                    height,
                    objects@,
                    *camera,
                    *light,
                    is_day,
                ),
        decreases height - y,
    {
        let ghost row = y * width;
        let mut x: usize = 0;
        while x < width
            invariant
                x <= width,
                y < height,
                row == y * width,
                width == framebuffer.spec_width(),
                height == framebuffer.spec_height(),
                framebuffer.background() == old(framebuffer).background(),
                framebuffer@.len() == pixels,
                pixels == width * height,
                framebuffer.pen() == if row + x > 0 {
                    spec_stored_color(row + x - 1, width, height, objects@, *camera, *light, is_day)
                } else {
                    old(framebuffer).pen()
                },
                forall|i: int|
                    0 <= i < row + x ==> #[trigger] framebuffer@[i] == spec_stored_color(
                        i,
                        width,
                        height,
                        objects@,
                        *camera,
                        *light,
                        is_day,
                    ),
            decreases width - x,
        {
            let ghost before = framebuffer@;
            let ghost place = row + x;
            render_pixel(framebuffer, x, y, objects, camera, light, is_day);
            proof {
                assert(0 <= place < pixels) by (nonlinear_arith)
                    requires
                        place == y * width + x,
                        0 <= x < width,
                        0 <= y < height,
                        pixels == width * height,
                ;
                assert(framebuffer@[place] == spec_stored_color(
                    place,
                    width,
                    height,
                    objects@,
                    *camera,
                    *light,
                    is_day,
                ) && framebuffer.pen() == spec_stored_color(
                    place,
                    width,
                    height,
                    objects@,
                    *camera,
                    *light,
                    is_day,
                )) by {
                    lemma_stored_color_of_pixel(
                        x,
                        y,
                        width,
                        height,
                        objects@,
                        *camera,
                        *light,
                        is_day,
                    );
                }
                assert forall|i: int| 0 <= i < place implies #[trigger] framebuffer@[i]
                    == spec_stored_color(i, width, height, objects@, *camera, *light, is_day) by {
                    assert(framebuffer@[i] == before[i]);
                }
            }
            x += 1;
        }
        assert(row + width == (y + 1) * width) by (nonlinear_arith)
            requires
                row == y * width,
        ;
        y += 1;
    }
    proof {
        lemma_last_stored_color(width, height, objects@, *camera, *light, is_day);
        lemma_every_pixel_stored(*framebuffer, objects@, *camera, *light, is_day);
    }
}

/// The colour stored at the last place of a screen that has pixels is the
/// colour of its last pixel; a screen without pixels has no place.
proof fn lemma_last_stored_color<T: RayIntersect>(
    width: usize,
    height: usize,
    objects: Seq<T>,
    camera: Camera,
    light: Light,
    is_day: bool,
)
    ensures
        width > 0 && height > 0 ==> height * width > 0 && spec_stored_color(
            height * width - 1,
            width,
            height,
            objects,
            camera,
            light,
            is_day,
        ) == spec_pixel_color(
            (width - 1) as usize,
            (height - 1) as usize,
            width,
            height,
            objects,
            camera,
            light,
            is_day,
        ).spec_to_hex(),
        !(width > 0 && height > 0) ==> height * width == 0,
{
    if width > 0 && height > 0 {
        assert(height * width - 1 == (height - 1) * width + (width - 1) && height * width > 0)
            by (nonlinear_arith)
            requires
                width > 0,
                height > 0,
        ;
        lemma_stored_color_of_pixel(
            (width - 1) as usize,
            (height - 1) as usize,
            width,
            height,
            objects,
            camera,
            light,
            is_day,
        );
    } else {
        assert(height * width == 0) by (nonlinear_arith)
            requires
                width == 0 || height == 0,
        ;
    }
}

/// A buffer that holds at every place the colour stored there holds for
/// every pixel the colour of that pixel.
proof fn lemma_every_pixel_stored<T: RayIntersect>(
    framebuffer: Framebuffer,
    objects: Seq<T>,
    camera: Camera,
    light: Light,
    is_day: bool,
)
    requires
        forall|i: int|
            0 <= i < framebuffer.spec_height() * framebuffer.spec_width()
                ==> #[trigger] framebuffer@[i] == spec_stored_color(
                i,
                framebuffer.spec_width(),
                framebuffer.spec_height(),
                objects,
                camera,
                light,
                is_day,
            ),
    ensures
        forall|x: int, y: int|
            0 <= x < framebuffer.spec_width() && 0 <= y < framebuffer.spec_height()
                ==> #[trigger] framebuffer.pixel(x, y) == spec_pixel_color(
                x as usize,
                y as usize,
                framebuffer.spec_width(),
                framebuffer.spec_height(),
                objects,
                camera,
                light,
                is_day,
            ).spec_to_hex(),
{
    let width = framebuffer.spec_width();
    let height = framebuffer.spec_height();
    assert forall|x: int, y: int| 0 <= x < width && 0 <= y < height implies #[trigger] framebuffer.pixel(
        x,
        y,
    ) == spec_pixel_color(
        x as usize,
        y as usize,
        width,
        height,
        objects,
        camera,
        light,
        is_day,
    ).spec_to_hex() by {
        let place = y * width + x;
        lemma_stored_color_of_pixel(
            x as usize,
            y as usize,
            width,
            height,
            objects,
            camera,
            light,
            is_day,
        );
        assert(0 <= place < height * width) by (nonlinear_arith)
            requires
                place == y * width + x,
                0 <= x < width,
                0 <= y < height,
        ;
        assert(framebuffer@[place] == spec_stored_color(
            place,
            width,
            height,
            objects,
            camera,
            light,
            is_day,
        ));
    }
}

/// Pixel `half` of `2 * half` along an axis of the screen lies in the
/// middle of the scale from minus one to one, both across and down.
proof fn lemma_middle_of_screen(half: usize, extent: usize)
    requires
        half > 0,
        extent == 2 * half,
        extent * SCALE <= LIMIT,
    ensures
        spec_screen_x(half, extent) == Scalar::spec_zero(),
        spec_screen_y(half, extent) == Scalar::spec_zero(),
{
    let twice = Scalar::spec_from_int(2).spec_mul(Scalar::spec_from_usize(half));
    assert((2 * SCALE) * (half * SCALE) == (extent * SCALE) * SCALE) by (nonlinear_arith)
        requires
            extent == 2 * half,
    ;
    lemma_quotient_of_multiple(extent * SCALE, SCALE as int);
    assert(twice@ == extent * SCALE);
    assert((extent * SCALE) * SCALE == SCALE * (extent * SCALE)) by (nonlinear_arith);
    lemma_quotient_of_multiple(SCALE as int, extent * SCALE);
    lemma_quotient_neg((extent * SCALE) * SCALE, extent * SCALE);
    assert((-(extent * SCALE)) * SCALE == -((extent * SCALE) * SCALE)) by (nonlinear_arith);
    assert(twice.spec_div(Scalar::spec_from_usize(extent))@ == SCALE);
    assert(twice.spec_neg().spec_div(Scalar::spec_from_usize(extent))@ == -SCALE);
}

/// The ray through the middle pixel of a screen with an even number of
/// columns and of rows runs straight ahead in the camera's own axes.
pub proof fn lemma_middle_ray_is_straight(width: usize, height: usize)
    requires
        width > 0,
        height > 0,
        width % 2 == 0,
        height % 2 == 0,
        width * SCALE <= LIMIT,
        height * SCALE <= LIMIT,
    ensures
        spec_primary_direction((width / 2) as usize, (height / 2) as usize, width, height)
            == Vec3::spec_unit_z().spec_neg(),
{
    let x = (width / 2) as usize;
    let y = (height / 2) as usize;
    lemma_middle_of_screen(x, width);
    lemma_middle_of_screen(y, height);
    let aspect_ratio = Scalar::spec_from_usize(width).spec_div(Scalar::spec_from_usize(height));
    let perspective_scale = Scalar { raw: PERSPECTIVE_SCALE };
    lemma_mul_by_units(aspect_ratio);
    lemma_mul_by_units(perspective_scale);
    let ahead = Vec3 {
        x: spec_screen_x(x, width).spec_mul(aspect_ratio).spec_mul(perspective_scale),
        y: spec_screen_y(y, height).spec_mul(perspective_scale),
        z: Scalar::spec_one().spec_neg(),
    };
    assert(ahead.x@ == 0 && ahead.y@ == 0 && ahead.z@ == -SCALE);
    assert(ahead.square_sum() == SCALE * SCALE) by (nonlinear_arith)
        requires
            ahead.square_sum() == (ahead.x@ * ahead.x@ + ahead.y@ * ahead.y@ + ahead.z@ * ahead.z@)
                as nat,
            ahead.x@ == 0,
            ahead.y@ == 0,
            ahead.z@ == -SCALE,
    ;
    assert(SCALE * SCALE < (SCALE + 1) * (SCALE + 1)) by (nonlinear_arith);
    lemma_isqrt_unique((SCALE * SCALE) as nat, SCALE as nat);
    assert(ahead.spec_magnitude() == Scalar::spec_one());
    lemma_div_by_units(ahead.x);
    lemma_div_by_units(ahead.y);
    lemma_div_by_units(ahead.z);
}

/// Through the middle pixel of a screen with an even number of columns and
/// of rows, a camera that looks along minus z with y up, `gap` before the
/// middle of the front face of a cube, sees that cube: the nearest hit of
/// the pixel's ray lies in the middle of that face, `gap` away, and faces
/// the camera.
pub proof fn lemma_middle_pixel_sees_cube_ahead(
    width: usize,
    height: usize,
    camera: Camera,
    cube: Cube,
    gap: Scalar,
)
    requires
        width > 0,
        height > 0,
        width % 2 == 0,
        height % 2 == 0,
        width * SCALE <= LIMIT,
        height * SCALE <= LIMIT,
        camera.center.spec_sub(camera.eye) == Vec3::axis(2, false),
        camera.up == Vec3::axis(1, true),
        gap@ > 0,
        cube.spec_half_size()@ >= FACE_EPSILON,
        magnitude(cube.center.x@) + 2 * cube.spec_half_size()@ + gap@ <= LIMIT,
        magnitude(cube.center.y@) + 2 * cube.spec_half_size()@ + gap@ <= LIMIT,
        magnitude(cube.center.z@) + 2 * cube.spec_half_size()@ + gap@ <= LIMIT,
        camera.eye == cube.center.spec_add(
            Vec3::axis(2, true).spec_scale(cube.spec_half_size().spec_add(gap)),
        ),
    ensures
        ({
            let direction = camera.spec_base_change(
                spec_primary_direction((width / 2) as usize, (height / 2) as usize, width, height),
            );
            let hit = spec_nearest_hit(seq![cube], camera.eye, direction);
            &&& direction == Vec3::axis(2, false)
            &&& hit == cube.spec_ray_intersect(camera.eye, direction)
            &&& hit.is_intersecting
            &&& hit.normal == Vec3::axis(2, true)
            &&& hit.distance@ == gap@
            &&& hit.point == cube.center.spec_add(
                Vec3::axis(2, true).spec_scale(cube.spec_half_size()),
            )
        }),
{
    let straight = spec_primary_direction(
        (width / 2) as usize,
        (height / 2) as usize,
        width,
        height,
    );
    lemma_middle_ray_is_straight(width, height);
    lemma_straight_camera_keeps_directions(camera, straight);
    lemma_axis_is_unit(2, false);
    let direction = camera.spec_base_change(straight);
    assert(direction == Vec3::axis(2, false));
    lemma_face_center_hit(cube, 2, true, gap);
    let scene = seq![cube];
    assert(scene.len() == 1 && scene[0] == cube);
    assert(nearest_in(scene, camera.eye, direction, 1) == cube.spec_ray_intersect(
        camera.eye,
        direction,
    )) by {
        reveal_with_fuel(nearest_in, 2);
    }
}

/// A light that stands `gap` before the middle of the front face of a cube
/// lights that middle straight on, and the cube itself casts no shadow on
/// it.
pub proof fn lemma_front_face_is_lit(cube: Cube, gap: Scalar, light: Light)
    requires
        gap@ > 0,
        cube.spec_half_size()@ >= FACE_EPSILON,
        magnitude(cube.center.x@) + 2 * cube.spec_half_size()@ + gap@ <= LIMIT,
        magnitude(cube.center.y@) + 2 * cube.spec_half_size()@ + gap@ <= LIMIT,
        magnitude(cube.center.z@) + 2 * cube.spec_half_size()@ + gap@ <= LIMIT,
        light.position == cube.center.spec_add(
            Vec3::axis(2, true).spec_scale(cube.spec_half_size().spec_add(gap)),
        ),
    ensures
        ({
            let hit = cube.spec_ray_intersect(light.position, Vec3::axis(2, false));
            &&& light_direction(hit, light) == Vec3::axis(2, true)
            &&& light_distance(hit, light)@ == gap@
            &&& hit.normal.spec_dot(light_direction(hit, light))@ == SCALE
            &&& spec_cast_shadow(hit, light, seq![cube]) == Scalar::spec_zero()
        }),
{
    let hit = cube.spec_ray_intersect(light.position, Vec3::axis(2, false));
    lemma_face_center_hit(cube, 2, true, gap);
    lemma_face_ray_start(cube, 2, true, gap, 0);
    lemma_face_ray_start(cube, 2, true, gap, 1);
    lemma_face_ray_start(cube, 2, true, gap, 2);
    let to_light = light.position.spec_sub(hit.point);
    assert(to_light.x@ == 0 && to_light.y@ == 0 && to_light.z@ == gap@);
    lemma_normalize_along_axis(to_light, 2);
    let toward = light_direction(hit, light);
    assert(toward == Vec3::axis(2, true));
    lemma_mul_by_units(Scalar::spec_one());
    lemma_mul_by_units(Scalar::spec_zero());
    assert(hit.normal.spec_dot(toward)@ == SCALE);
    lemma_mul_by_units(Scalar { raw: ORIGIN_BIAS });
    let start = spec_offset_origin(hit, toward);
    assert(start.z@ == cube.center.z@ + cube.spec_half_size()@ + ORIGIN_BIAS);
    lemma_moving_away_misses(cube, start, toward, 2);
    let scene = seq![cube];
    assert(scene.len() == 1 && scene[0] == cube);
    lemma_unblocked_is_lit(hit, light, scene);
}

/// Through the middle pixel of a screen with an even number of columns and
/// of rows, a camera that looks along minus z with y up, a light of
/// intensity one beside it, sees of a purely diffuse cube straight ahead
/// the cube's own colour with its glow, and nothing of the sky.
pub proof fn lemma_middle_pixel_shows_cube_colour(
    width: usize,
    height: usize,
    camera: Camera,
    light: Light,
    cube: Cube,
    gap: Scalar,
    is_day: bool,
)
    requires
        width > 0,
        height > 0,
        width % 2 == 0,
        height % 2 == 0,
        width * SCALE <= LIMIT,
        height * SCALE <= LIMIT,
        camera.center.spec_sub(camera.eye) == Vec3::axis(2, false),
        camera.up == Vec3::axis(1, true),
        gap@ > 0,
        cube.spec_half_size()@ >= FACE_EPSILON,
        magnitude(cube.center.x@) + 2 * cube.spec_half_size()@ + gap@ <= LIMIT,
        magnitude(cube.center.y@) + 2 * cube.spec_half_size()@ + gap@ <= LIMIT,
        magnitude(cube.center.z@) + 2 * cube.spec_half_size()@ + gap@ <= LIMIT,
        camera.eye == cube.center.spec_add(
            Vec3::axis(2, true).spec_scale(cube.spec_half_size().spec_add(gap)),
        ),
        light.position == camera.eye,
        light.intensity@ == SCALE,
        purely_diffuse(*cube.material),
    ensures
        spec_pixel_color(
            (width / 2) as usize,
            (height / 2) as usize,
            width,
            height,
            seq![cube],
            camera,
            light,
            is_day,
        ) == cube.material.diffuse.spec_add(cube.material.emissive_color),
{
    lemma_middle_pixel_sees_cube_ahead(width, height, camera, cube, gap);
    lemma_front_face_is_lit(cube, gap, light);
    let direction = camera.spec_base_change(
        spec_primary_direction((width / 2) as usize, (height / 2) as usize, width, height),
    );
    lemma_diffuse_surface_facing_light(camera.eye, direction, seq![cube], light, 0, is_day);
}

} // verus!
