//! The recursive ray-tracing engine: nearest hit, shadow, reflection,
//! refraction and the composition of a pixel's colour.

use vstd::prelude::*;
use crate::color::Color;
use crate::light::Light;
use crate::material::Material;
use crate::ray_intersect::{Intersect, RayIntersect};
use crate::scalar::{lemma_mul_neg, lemma_quotient_of_multiple, Scalar, LIMIT, SCALE};
use crate::vector::{lemma_dot_neg, lemma_scale_neg_neg, Vec3};

verus! {

/// How far, in raw units, a secondary ray starts off the surface it leaves:
/// one ten-thousandth.
pub const ORIGIN_BIAS: i64 = 100_000;

/// Edge length, in raw units, of the tile over which a texture is laid out:
/// one half.
pub const TILE_SIZE: i64 = 500_000_000;

/// The deepest level of recursion at which shapes are still tested.
pub const MAX_DEPTH: u32 = 3;

/// The colour of the sky, by day and by night.
pub open spec fn spec_sky_color(is_day: bool) -> Color {
    if is_day {
        Color::spec_new(68, 142, 228)
    } else {
        Color::spec_new(25, 25, 112)
    }
}

/// The hit point moved off the surface by `ORIGIN_BIAS` along the normal, to
/// the side that `direction` leaves on.
pub open spec fn spec_offset_origin(intersect: Intersect, direction: Vec3) -> Vec3 {
    let offset = intersect.normal.spec_scale(Scalar { raw: ORIGIN_BIAS });
    if direction.spec_dot(intersect.normal)@ < 0 {
        intersect.point.spec_sub(offset)
    } else {
        intersect.point.spec_add(offset)
    }
}

/// The mirror image of `incident` in the plane with the given normal:
/// `incident - 2 (incident . normal) normal`.
pub open spec fn spec_reflect(incident: Vec3, normal: Vec3) -> Vec3 {
    incident.spec_sub(normal.spec_scale(Scalar::spec_from_int(2).spec_mul(incident.spec_dot(normal))))
}

/// The cosine between the reversed incident ray and the normal, kept within
/// minus one and one.
pub open spec fn incidence_cosine(incident: Vec3, normal: Vec3) -> Scalar {
    incident.spec_dot(normal).spec_max(Scalar::spec_one().spec_neg()).spec_min(
        Scalar::spec_one(),
    ).spec_neg()
}

/// Whether the incident ray meets the surface from inside.
pub open spec fn leaves_medium(incident: Vec3, normal: Vec3) -> bool {
    incidence_cosine(incident, normal)@ < 0
}

/// The normal on the side of the surface that the incident ray meets.
pub open spec fn facing_normal(incident: Vec3, normal: Vec3) -> Vec3 {
    if leaves_medium(incident, normal) {
        normal.spec_neg()
    } else {
        normal
    }
}

/// The cosine of the angle of incidence, never negative.
pub open spec fn facing_cosine(incident: Vec3, normal: Vec3) -> Scalar {
    if leaves_medium(incident, normal) {
        incidence_cosine(incident, normal).spec_neg()
    } else {
        incidence_cosine(incident, normal)
    }
}

/// The ratio of refractive indices in the direction of travel.
pub open spec fn index_ratio(incident: Vec3, normal: Vec3, eta_t: Scalar) -> Scalar {
    if leaves_medium(incident, normal) {
        Scalar::spec_one().spec_div(eta_t)
    } else {
        eta_t
    }
}

/// The discriminant of Snell's law, `1 - eta^2 (1 - cos^2)`: negative when
/// no ray is transmitted.
pub open spec fn discriminant(incident: Vec3, normal: Vec3, eta_t: Scalar) -> Scalar {
    let eta = index_ratio(incident, normal, eta_t);
    let cosine = facing_cosine(incident, normal);
    Scalar::spec_one().spec_sub(
        eta.spec_mul(eta).spec_mul(Scalar::spec_one().spec_sub(cosine.spec_mul(cosine))),
    )
}

/// The direction of the ray transmitted through a surface with refractive
/// index `eta_t`, or of the reflected ray where none is transmitted.
pub open spec fn spec_refract(incident: Vec3, normal: Vec3, eta_t: Scalar) -> Vec3 {
    let eta = index_ratio(incident, normal, eta_t);
    let cosine = facing_cosine(incident, normal);
    let facing = facing_normal(incident, normal);
    let k = discriminant(incident, normal, eta_t);
    if k@ < 0 {
        spec_reflect(incident, facing)
    } else {
        incident.spec_scale(eta).spec_add(
            facing.spec_scale(eta.spec_mul(cosine).spec_sub(k.spec_sqrt())),
        )
    }
}

/// The unit direction from the hit point to the light.
pub open spec fn light_direction(intersect: Intersect, light: Light) -> Vec3 {
    light.position.spec_sub(intersect.point).spec_normalize()
}

/// The distance from the hit point to the light.
pub open spec fn light_distance(intersect: Intersect, light: Light) -> Scalar {
    light.position.spec_sub(intersect.point).spec_magnitude()
}

/// Whether `shape` stands in the way of a ray before it has gone `limit`.
pub open spec fn blocks<T: RayIntersect>(
    shape: T,
    origin: Vec3,
    direction: Vec3,
    limit: Scalar,
) -> bool {
    let hit = shape.spec_ray_intersect(origin, direction);
    hit.is_intersecting && hit.distance@ < limit@
}

/// The index of the first shape at or after `from` that blocks the ray.
pub open spec fn first_blocker<T: RayIntersect>(
    objects: Seq<T>,
    origin: Vec3,
    direction: Vec3,
    limit: Scalar,
    from: int,
) -> Option<int>
    decreases objects.len() - from,
{
    if from < 0 || from >= objects.len() {
        None
    } else if blocks(objects[from], origin, direction, limit) {
        Some(from)
    } else {
        first_blocker(objects, origin, direction, limit, from + 1)
    }
}

/// How dark a blocker at `distance` makes a point whose light is
/// `light_distance` away: `1 - min(1, (distance / light_distance)^2)`.
pub open spec fn spec_shadow_of(distance: Scalar, light_distance: Scalar) -> Scalar {
    let ratio = distance.spec_div(light_distance);
    Scalar::spec_one().spec_sub(ratio.spec_mul(ratio).spec_min(Scalar::spec_one()))
}

/// How much of the light the scene keeps from the hit point: nothing is
/// kept where no shape blocks the way to the light; else the first blocker
/// in the order of the scene decides.
pub open spec fn spec_cast_shadow<T: RayIntersect>(
    intersect: Intersect,
    light: Light,
    objects: Seq<T>,
) -> Scalar {
    let direction = light_direction(intersect, light);
    let limit = light_distance(intersect, light);
    let origin = spec_offset_origin(intersect, direction);
    match first_blocker(objects, origin, direction, limit, 0) {
        Some(i) => spec_shadow_of(
            objects[i].spec_ray_intersect(origin, direction).distance,
            limit,
        ),
        None => Scalar::spec_zero(),
    }
}

/// One texture coordinate: `p / 2 + 1 / 2`, kept within zero and one.
pub open spec fn spec_uv_coordinate(p: Scalar) -> Scalar {
    p.spec_mul(Scalar::spec_from_ratio(1, 2)).spec_add(Scalar::spec_from_ratio(1, 2)).spec_clamp(
        Scalar::spec_zero(),
        Scalar::spec_one(),
    )
}

/// The axis, 0 for x, 1 for y and 2 for z, along which the normal is
/// longest. Of several equally long axes y goes before x, and x before z.
pub open spec fn spec_dominant_axis(normal: Vec3) -> int {
    let ax = normal.x.spec_abs()@;
    let ay = normal.y.spec_abs()@;
    let az = normal.z.spec_abs()@;
    if ay >= ax && ay >= az {
        1
    } else if ax >= az {
        0
    } else {
        2
    }
}

/// The texture coordinates of `point` on a face with the given normal: the
/// point, in tiles of `size`, is projected along the dominant axis of the
/// normal, which leaves `(x, z)` for a face that looks along y, `(z, y)`
/// for one that looks along x, and `(x, y)` for one that looks along z.
pub open spec fn spec_calculate_uv(normal: Vec3, point: Vec3, size: Scalar) -> (Scalar, Scalar) {
    let p = point.spec_shrink(size);
    let axis = spec_dominant_axis(normal);
    if axis == 1 {
        (spec_uv_coordinate(p.x), spec_uv_coordinate(p.z))
    } else if axis == 0 {
        (spec_uv_coordinate(p.z), spec_uv_coordinate(p.y))
    } else {
        (spec_uv_coordinate(p.x), spec_uv_coordinate(p.y))
    }
}

/// The distance beyond which a further hit no longer counts as nearer.
pub open spec fn depth_bound(best: Intersect) -> Scalar {
    if best.is_intersecting {
        best.distance
    } else {
        Scalar { raw: LIMIT }
    }
}

/// The nearest hit among the first `n` shapes: of several at the same
/// distance the first in the order of the scene, and a miss where no shape
/// is hit nearer than the end of the number range.
pub open spec fn nearest_in<T: RayIntersect>(
    objects: Seq<T>,
    origin: Vec3,
    direction: Vec3,
    n: nat,
) -> Intersect
    decreases n,
{
    if n == 0 {
        Intersect::spec_empty()
    } else {
        let best = nearest_in(objects, origin, direction, (n - 1) as nat);
        let hit = objects[n - 1].spec_ray_intersect(origin, direction);
        if hit.is_intersecting && hit.distance@ < depth_bound(best)@ {
            hit
        } else {
            best
        }
    }
}

/// The nearest hit in the whole scene.
pub open spec fn spec_nearest_hit<T: RayIntersect>(
    objects: Seq<T>,
    origin: Vec3,
    direction: Vec3,
) -> Intersect {
    nearest_in(objects, origin, direction, objects.len())
}

/// The light that reaches the hit point: the light's intensity less what
/// the shadow keeps.
pub open spec fn lit_intensity<T: RayIntersect>(
    intersect: Intersect,
    light: Light,
    objects: Seq<T>,
) -> Scalar {
    light.intensity.spec_mul(
        Scalar::spec_one().spec_sub(spec_cast_shadow(intersect, light, objects)),
    )
}

/// The colour of the surface under the hit point.
pub open spec fn surface_color(intersect: Intersect) -> Color {
    intersect.material.spec_surface_color(
        spec_calculate_uv(intersect.normal, intersect.point, Scalar { raw: TILE_SIZE }),
    )
}

/// The diffuse term: the surface colour, weighted, by the cosine between
/// normal and light and by the light that arrives.
pub open spec fn spec_diffuse<T: RayIntersect>(
    intersect: Intersect,
    light: Light,
    objects: Seq<T>,
) -> Color {
    let cosine = intersect.normal.spec_dot(light_direction(intersect, light)).spec_max(
        Scalar::spec_zero(),
    ).spec_min(Scalar::spec_one());
    surface_color(intersect).spec_scale(intersect.material.diffuse_weight()).spec_scale(
        cosine,
    ).spec_scale(lit_intensity(intersect, light, objects))
}

/// The specular term: the light's colour, weighted, by the cosine between
/// the view and the mirrored light raised to the material's exponent, and
/// by the light that arrives.
pub open spec fn spec_specular<T: RayIntersect>(
    ray_origin: Vec3,
    intersect: Intersect,
    light: Light,
    objects: Seq<T>,
) -> Color {
    let view = ray_origin.spec_sub(intersect.point).spec_normalize();
    let mirrored = spec_reflect(
        light_direction(intersect, light).spec_neg(),
        intersect.normal,
    ).spec_normalize();
    let highlight = view.spec_dot(mirrored).spec_max(Scalar::spec_zero()).spec_powf(
        intersect.material.specular,
    );
    light.color.spec_scale(intersect.material.specular_weight()).spec_scale(highlight).spec_scale(
        lit_intensity(intersect, light, objects),
    )
}

/// The colour of a pixel from its parts:
/// `(diffuse + specular) (1 - reflectivity - transparency)
///  + reflected reflectivity + refracted transparency + emissive`.
pub open spec fn spec_compose(
    diffuse: Color,
    specular: Color,
    reflected: Color,
    refracted: Color,
    material: Material,
) -> Color {
    let reflectivity = material.reflectivity();
    let transparency = material.transparency();
    diffuse.spec_add(specular).spec_scale(
        Scalar::spec_one().spec_sub(reflectivity).spec_sub(transparency),
    ).spec_add(reflected.spec_scale(reflectivity)).spec_add(
        refracted.spec_scale(transparency),
    ).spec_add(material.emissive_color)
}

/// The colour that the ray from `ray_origin` along `ray_direction` sees.
///
/// Past `MAX_DEPTH`, and where the ray hits nothing, that is the sky.
/// Else it is composed from the local shading at the nearest hit, from what
/// the mirrored ray sees where the material reflects, and from what the
/// refracted ray sees where it is transparent, both one level deeper.
pub open spec fn spec_cast_ray<T: RayIntersect>(
    ray_origin: Vec3,
    ray_direction: Vec3,
    objects: Seq<T>,
    light: Light,
    depth: u32,
    is_day: bool,
) -> Color
    decreases 4 - depth,
{
    if depth > MAX_DEPTH {
        spec_sky_color(is_day)
    } else {
        let intersect = spec_nearest_hit(objects, ray_origin, ray_direction);
        if !intersect.is_intersecting {
            spec_sky_color(is_day)
        } else {
            let reflected = if intersect.material.reflectivity()@ > 0 {
                let direction = spec_reflect(ray_direction, intersect.normal).spec_normalize();
                spec_cast_ray(
                    spec_offset_origin(intersect, direction),
                    direction,
                    objects,
                    light,
                    (depth + 1) as u32,
                    is_day,
                )
            } else {
                Color::spec_black()
            };
            let refracted = if intersect.material.transparency()@ > 0 {
                let direction = spec_refract(
                    ray_direction,
                    intersect.normal,
                    intersect.material.refractive_index,
                );
                spec_cast_ray(
                    spec_offset_origin(intersect, direction),
                    direction,
                    objects,
                    light,
                    (depth + 1) as u32,
                    is_day,
                )
            } else {
                Color::spec_black()
            };
            spec_compose(
                spec_diffuse(intersect, light, objects),
                spec_specular(ray_origin, intersect, light, objects),
                reflected,
                refracted,
                *intersect.material,
            )
        }
    }
}

#[verifier::when_used_as_spec(spec_sky_color)]
pub fn sky_color(is_day: bool) -> (c: Color)
    ensures
        c == spec_sky_color(is_day),
{
    if is_day {
        Color::new(68, 142, 228)
    } else {
        Color::new(25, 25, 112)
    }
}

/// Where a secondary ray along `direction` starts, just off the surface.
pub fn offset_origin(intersect: &Intersect, direction: &Vec3) -> (origin: Vec3)
    ensures
        origin == spec_offset_origin(*intersect, *direction),
{
    let offset = intersect.normal.scale(Scalar { raw: ORIGIN_BIAS });
    if direction.dot(intersect.normal).lt(Scalar::zero()) {
        intersect.point.sub(offset)
    } else {
        intersect.point.add(offset)
    }
}

/// The mirror image of `incident` in the surface with the given normal.
pub fn reflect(incident: &Vec3, normal: &Vec3) -> (r: Vec3)
    ensures
        r == spec_reflect(*incident, *normal),
{
    incident.sub(normal.scale(Scalar::from_int(2).mul(incident.dot(*normal))))
}

/// The direction of `incident` past a surface of refractive index `eta_t`;
/// the mirrored direction where no ray is transmitted.
pub fn refract(incident: &Vec3, normal: &Vec3, eta_t: Scalar) -> (r: Vec3)
    ensures
        r == spec_refract(*incident, *normal, eta_t),
{
    let cosi = incident.dot(*normal).max(Scalar::one().neg()).min(Scalar::one()).neg();

    let n_cosi;
    let eta;
    let n_normal;
    if cosi.lt(Scalar::zero()) {
        n_cosi = cosi.neg();
        eta = Scalar::one().div(eta_t);
        n_normal = normal.neg();
    } else {
        n_cosi = cosi;
        eta = eta_t;
        n_normal = *normal;
    }

    let k = Scalar::one().sub(eta.mul(eta).mul(Scalar::one().sub(n_cosi.mul(n_cosi))));

    if k.lt(Scalar::zero()) {
        reflect(incident, &n_normal)
    } else {
        incident.scale(eta).add(n_normal.scale(eta.mul(n_cosi).sub(k.sqrt())))
    }
}

/// How dark a blocker at `distance` makes a point whose light is
/// `light_distance` away.
pub fn shadow_of(distance: Scalar, light_distance: Scalar) -> (shadow: Scalar)
    ensures
        shadow == spec_shadow_of(distance, light_distance),
{
    let distance_ratio = distance.div(light_distance);
    Scalar::one().sub(distance_ratio.mul(distance_ratio).min(Scalar::one()))
}

/// How much of the light the scene keeps from the hit point, from zero for
/// none of it to one for all.
pub fn cast_shadow<T: RayIntersect>(intersect: &Intersect, light: &Light, objects: &[T]) -> (shadow:
    Scalar)
    ensures
        shadow == spec_cast_shadow(*intersect, *light, objects@),
{
    let to_light = light.position.sub(intersect.point);
    let light_dir = to_light.normalize();
    let light_distance = to_light.magnitude();

    let shadow_ray_origin = offset_origin(intersect, &light_dir);
    let mut shadow_intensity = Scalar::zero();

    let mut i: usize = 0;
    while i < objects.len()
        invariant_except_break
            i <= objects.len(),
            shadow_intensity == Scalar::spec_zero(),
            first_blocker(objects@, shadow_ray_origin, light_dir, light_distance, 0)
                == first_blocker(objects@, shadow_ray_origin, light_dir, light_distance, i as int),
        ensures
            shadow_intensity == match first_blocker(
                objects@,
                shadow_ray_origin,
                light_dir,
                light_distance,
                0,
            ) {
                Some(j) => spec_shadow_of(
                    objects@[j].spec_ray_intersect(shadow_ray_origin, light_dir).distance,
                    light_distance,
                ),
                None => Scalar::spec_zero(),
            },
        decreases objects.len() - i,
    {
        let shadow_intersect = objects[i].ray_intersect(&shadow_ray_origin, &light_dir);
        if shadow_intersect.is_intersecting && shadow_intersect.distance.lt(light_distance) {
            shadow_intensity = shadow_of(shadow_intersect.distance, light_distance);
            break ;
        }
        i += 1;
    }

    shadow_intensity
}

fn uv_coordinate(p: Scalar) -> (r: Scalar)
    ensures
        r == spec_uv_coordinate(p),
{
    p.mul(Scalar::from_ratio(1, 2)).add(Scalar::from_ratio(1, 2)).clamp(
        Scalar::zero(),
        Scalar::one(),
    )
}

/// The axis along which the normal is longest: 0 for x, 1 for y, 2 for z.
pub fn dominant_axis(normal: Vec3) -> (axis: u8)
    ensures
        axis == spec_dominant_axis(normal),
{
    let ax = normal.x.abs();
    let ay = normal.y.abs();
    let az = normal.z.abs();

    if ay.ge(ax) && ay.ge(az) {
        1
    } else if ax.ge(az) {
        0
    } else {
        2
    }
}

/// The texture coordinates of `point` on a face with the given normal.
pub fn calculate_uv(normal: Vec3, point: Vec3, size: Scalar) -> (uv: (Scalar, Scalar))
    ensures
        uv == spec_calculate_uv(normal, point, size),
{
    let norm_point = point.shrink(size);
    let axis = dominant_axis(normal);

    if axis == 1 {
        (uv_coordinate(norm_point.x), uv_coordinate(norm_point.z))
    } else if axis == 0 {
        (uv_coordinate(norm_point.z), uv_coordinate(norm_point.y))
    } else {
        (uv_coordinate(norm_point.x), uv_coordinate(norm_point.y))
    }
}

/// The nearest hit of the ray in the scene.
pub fn nearest_hit<T: RayIntersect>(ray_origin: &Vec3, ray_direction: &Vec3, objects: &[T]) -> (r:
    Intersect)
    ensures
        r == spec_nearest_hit(objects@, *ray_origin, *ray_direction),
{
    let mut intersect = Intersect::empty();
    let mut zbuffer = Scalar { raw: LIMIT };

    let mut i: usize = 0;
    while i < objects.len()
        invariant
            i <= objects.len(),
            intersect == nearest_in(objects@, *ray_origin, *ray_direction, i as nat),
            zbuffer == depth_bound(intersect),
        decreases objects.len() - i,
    {
        let hit = objects[i].ray_intersect(ray_origin, ray_direction);
        if hit.is_intersecting && hit.distance.lt(zbuffer) {
            zbuffer = hit.distance;
            intersect = hit;
        }
        i += 1;
    }
    intersect
}

/// The colour of a pixel from its parts.
pub fn compose(
    diffuse: Color,
    specular: Color,
    reflected: Color,
    refracted: Color,
    material: &Material,
) -> (c: Color)
    ensures
        c == spec_compose(diffuse, specular, reflected, refracted, *material),
{
    let reflectivity = material.albedo[2];
    let transparency = material.albedo[3];
    diffuse.add(specular).scale(Scalar::one().sub(reflectivity).sub(transparency)).add(
        reflected.scale(reflectivity),
    ).add(refracted.scale(transparency)).add(material.emissive_color)
}

/// The colour that the ray from `ray_origin` along `ray_direction` sees in
/// the scene, `depth` levels below the primary ray.
pub fn cast_ray<T: RayIntersect>(
    ray_origin: &Vec3,
    ray_direction: &Vec3,
    objects: &[T],
    light: &Light,
    depth: u32,
    is_day: bool,
) -> (color: Color)
    ensures
        color == spec_cast_ray(*ray_origin, *ray_direction, objects@, *light, depth, is_day),
        depth > MAX_DEPTH ==> color == spec_sky_color(is_day),
    decreases 4 - depth,
{
    if depth > MAX_DEPTH {
        return sky_color(is_day);
    }
    let intersect = nearest_hit(ray_origin, ray_direction, objects);
    if !intersect.is_intersecting {
        return sky_color(is_day);
    }
    let light_dir = light.position.sub(intersect.point).normalize();
    let view_dir = ray_origin.sub(intersect.point).normalize();
    let reflect_dir = reflect(&light_dir.neg(), &intersect.normal).normalize();

    let shadow_intensity = cast_shadow(&intersect, light, objects);
    let light_intensity = light.intensity.mul(Scalar::one().sub(shadow_intensity));

    let uv = calculate_uv(intersect.normal, intersect.point, Scalar { raw: TILE_SIZE });
    let texture_diffuse = intersect.material.surface_color(uv);

    let diffuse_intensity = intersect.normal.dot(light_dir).max(Scalar::zero()).min(Scalar::one());
    let diffuse = texture_diffuse.scale(intersect.material.albedo[0]).scale(
        diffuse_intensity,
    ).scale(light_intensity);

    let specular_intensity = view_dir.dot(reflect_dir).max(Scalar::zero()).powf(
        intersect.material.specular,
    );
    let specular = light.color.scale(intersect.material.albedo[1]).scale(
        specular_intensity,
    ).scale(light_intensity);

    let mut reflect_color = Color::black();
    let reflectivity = intersect.material.albedo[2];
    if reflectivity.gt(Scalar::zero()) {
        let reflect_dir = reflect(ray_direction, &intersect.normal).normalize();
        let reflect_origin = offset_origin(&intersect, &reflect_dir);
        reflect_color = cast_ray(&reflect_origin, &reflect_dir, objects, light, depth + 1, is_day);
    }
    let mut refract_color = Color::black();
    let transparency = intersect.material.albedo[3];
    if transparency.gt(Scalar::zero()) {
        let refract_dir = refract(
            ray_direction,
            &intersect.normal,
            intersect.material.refractive_index,
        );
        let refract_origin = offset_origin(&intersect, &refract_dir);
        refract_color = cast_ray(&refract_origin, &refract_dir, objects, light, depth + 1, is_day);
    }
    compose(diffuse, specular, reflect_color, refract_color, &intersect.material)
}

/// Past the deepest level the ray sees the sky, whatever the scene holds.
pub proof fn lemma_depth_limit_is_sky<T: RayIntersect>(
    ray_origin: Vec3,
    ray_direction: Vec3,
    objects: Seq<T>,
    light: Light,
    depth: u32,
    is_day: bool,
)
    requires
        depth > MAX_DEPTH,
    ensures
        spec_cast_ray(ray_origin, ray_direction, objects, light, depth, is_day) == spec_sky_color(
            is_day,
        ),
{
}

/// The nearest hit among the first `n` shapes is the hit of one of them,
/// and no shape among them is hit nearer.
pub proof fn lemma_nearest_is_nearest<T: RayIntersect>(
    objects: Seq<T>,
    origin: Vec3,
    direction: Vec3,
    n: nat,
)
    requires
        n <= objects.len(),
    ensures
        nearest_in(objects, origin, direction, n).is_intersecting ==> exists|i: int|
            0 <= i < n && nearest_in(objects, origin, direction, n)
                == #[trigger] objects[i].spec_ray_intersect(origin, direction),
        forall|j: int|
            0 <= j < n && blocks(objects[j], origin, direction, Scalar { raw: LIMIT }) ==> {
                &&& nearest_in(objects, origin, direction, n).is_intersecting
                &&& nearest_in(objects, origin, direction, n).distance@
                    <= (#[trigger] objects[j].spec_ray_intersect(origin, direction)).distance@
            },
    decreases n,
{
    if n > 0 {
        lemma_nearest_is_nearest(objects, origin, direction, (n - 1) as nat);
        let best = nearest_in(objects, origin, direction, (n - 1) as nat);
        let hit = objects[n - 1].spec_ray_intersect(origin, direction);
        let now = nearest_in(objects, origin, direction, n);
        if now.is_intersecting {
            if hit.is_intersecting && hit.distance@ < depth_bound(best)@ {
                assert(now == objects[n - 1].spec_ray_intersect(origin, direction));
            } else {
                let i = choose|i: int|
                    0 <= i < n - 1 && best == #[trigger] objects[i].spec_ray_intersect(
                        origin,
                        direction,
                    );
                assert(now == objects[i].spec_ray_intersect(origin, direction));
            }
        }
    }
}

/// No axis of the normal is longer than its dominant axis; an axis of the
/// same length comes after it in the order y, x, z.
pub proof fn lemma_dominant_axis_is_longest(normal: Vec3, other: int)
    requires
        0 <= other <= 2,
    ensures
        0 <= spec_dominant_axis(normal) <= 2,
        normal.component(other).spec_abs()@ <= normal.component(
            spec_dominant_axis(normal),
        ).spec_abs()@,
        other != spec_dominant_axis(normal) && normal.component(other).spec_abs()@
            == normal.component(spec_dominant_axis(normal)).spec_abs()@ ==> {
            ||| spec_dominant_axis(normal) == 1
            ||| spec_dominant_axis(normal) == 0 && other == 2
        },
{
}

/// A ray that hits no shape of the scene sees the sky.
pub proof fn lemma_miss_is_sky<T: RayIntersect>(
    ray_origin: Vec3,
    ray_direction: Vec3,
    objects: Seq<T>,
    light: Light,
    depth: u32,
    is_day: bool,
)
    requires
        forall|j: int|
            0 <= j < objects.len() ==> !(#[trigger] objects[j].spec_ray_intersect(
                ray_origin,
                ray_direction,
            )).is_intersecting,
    ensures
        !spec_nearest_hit(objects, ray_origin, ray_direction).is_intersecting,
        spec_cast_ray(ray_origin, ray_direction, objects, light, depth, is_day) == spec_sky_color(
            is_day,
        ),
{
    lemma_nearest_is_nearest(objects, ray_origin, ray_direction, objects.len());
}

/// While no shape from `from` up to `upto` blocks the ray, the first
/// blocker from `from` on is the first blocker from `upto` on.
pub proof fn lemma_first_blocker_skips<T: RayIntersect>(
    objects: Seq<T>,
    origin: Vec3,
    direction: Vec3,
    limit: Scalar,
    from: int,
    upto: int,
)
    requires
        0 <= from <= upto <= objects.len(),
        forall|j: int| from <= j < upto ==> !blocks(#[trigger] objects[j], origin, direction, limit),
    ensures
        first_blocker(objects, origin, direction, limit, from) == first_blocker(
            objects,
            origin,
            direction,
            limit,
            upto,
        ),
    decreases upto - from,
{
    if from < upto {
        lemma_first_blocker_skips(objects, origin, direction, limit, from + 1, upto);
    }
}

/// A point from which no shape blocks the way to the light is fully lit.
pub proof fn lemma_unblocked_is_lit<T: RayIntersect>(
    intersect: Intersect,
    light: Light,
    objects: Seq<T>,
)
    requires
        forall|j: int|
            0 <= j < objects.len() ==> !blocks(
                #[trigger] objects[j],
                spec_offset_origin(intersect, light_direction(intersect, light)),
                light_direction(intersect, light),
                light_distance(intersect, light),
            ),
    ensures
        spec_cast_shadow(intersect, light, objects) == Scalar::spec_zero(),
{
    let direction = light_direction(intersect, light);
    lemma_first_blocker_skips(
        objects,
        spec_offset_origin(intersect, direction),
        direction,
        light_distance(intersect, light),
        0,
        objects.len() as int,
    );
}

/// The first shape in the order of the scene that blocks the way to the
/// light decides the shadow, by its distance `d` and the distance `l` of
/// the light: the shadow is `1 - min(1, (d / l)^2)`.
pub proof fn lemma_first_blocker_shades<T: RayIntersect>(
    intersect: Intersect,
    light: Light,
    objects: Seq<T>,
    i: int,
)
    requires
        0 <= i < objects.len(),
        blocks(
            objects[i],
            spec_offset_origin(intersect, light_direction(intersect, light)),
            light_direction(intersect, light),
            light_distance(intersect, light),
        ),
        forall|j: int|
            0 <= j < i ==> !blocks(
                #[trigger] objects[j],
                spec_offset_origin(intersect, light_direction(intersect, light)),
                light_direction(intersect, light),
                light_distance(intersect, light),
            ),
    ensures
        spec_cast_shadow(intersect, light, objects) == spec_shadow_of(
            objects[i].spec_ray_intersect(
                spec_offset_origin(intersect, light_direction(intersect, light)),
                light_direction(intersect, light),
            ).distance,
            light_distance(intersect, light),
        ),
        spec_cast_shadow(intersect, light, objects) == ({
            let ratio = objects[i].spec_ray_intersect(
                spec_offset_origin(intersect, light_direction(intersect, light)),
                light_direction(intersect, light),
            ).distance.spec_div(light_distance(intersect, light));
            Scalar::spec_one().spec_sub(ratio.spec_mul(ratio).spec_min(Scalar::spec_one()))
        }),
{
    let direction = light_direction(intersect, light);
    lemma_first_blocker_skips(
        objects,
        spec_offset_origin(intersect, direction),
        direction,
        light_distance(intersect, light),
        0,
        i,
    );
}

/// Scaling a colour by one changes nothing, and scaling it by zero gives
/// black.
pub proof fn lemma_color_scale_unit(c: Color, zero: Scalar)
    requires
        zero@ == 0,
    ensures
        c.spec_scale(Scalar::spec_one()) == c,
        c.spec_scale(zero) == Color::spec_black(),
{
    lemma_quotient_of_multiple(c.r as int, SCALE as int);
    lemma_quotient_of_multiple(c.g as int, SCALE as int);
    lemma_quotient_of_multiple(c.b as int, SCALE as int);
    assert(c.r * zero@ == 0 && c.g * zero@ == 0 && c.b * zero@ == 0) by (nonlinear_arith)
        requires
            zero@ == 0,
    ;
}

/// A material that neither reflects nor transmits shows the diffuse term,
/// the specular term and its own glow, and nothing of what the reflected
/// and the refracted ray would see.
pub proof fn lemma_opaque_composition(
    diffuse: Color,
    specular: Color,
    reflected: Color,
    refracted: Color,
    material: Material,
)
    requires
        material.reflectivity()@ == 0,
        material.transparency()@ == 0,
    ensures
        spec_compose(diffuse, specular, reflected, refracted, material) == diffuse.spec_add(
            specular,
        ).spec_add(material.emissive_color),
{
    lemma_color_scale_unit(diffuse.spec_add(specular), material.reflectivity());
    lemma_color_scale_unit(reflected, material.reflectivity());
    lemma_color_scale_unit(refracted, material.transparency());
}

/// Where the nearest hit is on a material that neither reflects nor
/// transmits, the ray sees the local shading of that hit and the glow of
/// the material.
pub proof fn lemma_opaque_hit_color<T: RayIntersect>(
    ray_origin: Vec3,
    ray_direction: Vec3,
    objects: Seq<T>,
    light: Light,
    depth: u32,
    is_day: bool,
)
    requires
        depth <= MAX_DEPTH,
        spec_nearest_hit(objects, ray_origin, ray_direction).is_intersecting,
        spec_nearest_hit(objects, ray_origin, ray_direction).material.reflectivity()@ == 0,
        spec_nearest_hit(objects, ray_origin, ray_direction).material.transparency()@ == 0,
    ensures
        spec_cast_ray(ray_origin, ray_direction, objects, light, depth, is_day) == spec_diffuse(
            spec_nearest_hit(objects, ray_origin, ray_direction),
            light,
            objects,
        ).spec_add(
            spec_specular(
                ray_origin,
                spec_nearest_hit(objects, ray_origin, ray_direction),
                light,
                objects,
            ),
        ).spec_add(spec_nearest_hit(objects, ray_origin, ray_direction).material.emissive_color),
{
    let intersect = spec_nearest_hit(objects, ray_origin, ray_direction);
    lemma_opaque_composition(
        spec_diffuse(intersect, light, objects),
        spec_specular(ray_origin, intersect, light, objects),
        Color::spec_black(),
        Color::spec_black(),
        intersect.surface(),
    );
}

/// Whether the material is purely diffuse: its diffuse weight is one, its
/// other weights are zero, and it has no texture.
pub open spec fn purely_diffuse(material: Material) -> bool {
    &&& material.diffuse_weight()@ == SCALE
    &&& material.specular_weight()@ == 0
    &&& material.reflectivity()@ == 0
    &&& material.transparency()@ == 0
    &&& material.texture is None
}

/// Where the nearest hit is on a purely diffuse surface that faces a light
/// of intensity one straight on, with nothing in the way of the light, the
/// ray sees the base colour of the surface and its glow.
pub proof fn lemma_diffuse_surface_facing_light<T: RayIntersect>(
    ray_origin: Vec3,
    ray_direction: Vec3,
    objects: Seq<T>,
    light: Light,
    depth: u32,
    is_day: bool,
)
    requires
        depth <= MAX_DEPTH,
        spec_nearest_hit(objects, ray_origin, ray_direction).is_intersecting,
        purely_diffuse(spec_nearest_hit(objects, ray_origin, ray_direction).surface()),
        light.intensity@ == SCALE,
        spec_nearest_hit(objects, ray_origin, ray_direction).normal.spec_dot(
            light_direction(spec_nearest_hit(objects, ray_origin, ray_direction), light),
        )@ >= SCALE,
        spec_cast_shadow(spec_nearest_hit(objects, ray_origin, ray_direction), light, objects)@
            == 0,
    ensures
        spec_cast_ray(ray_origin, ray_direction, objects, light, depth, is_day) == spec_nearest_hit(
            objects,
            ray_origin,
            ray_direction,
        ).material.diffuse.spec_add(
            spec_nearest_hit(objects, ray_origin, ray_direction).material.emissive_color,
        ),
{
    let hit = spec_nearest_hit(objects, ray_origin, ray_direction);
    let material = hit.surface();
    lemma_opaque_hit_color(ray_origin, ray_direction, objects, light, depth, is_day);
    let lit = lit_intensity(hit, light, objects);
    assert(lit@ == SCALE) by {
        lemma_quotient_of_multiple(SCALE as int, SCALE as int);
    }
    let cosine = hit.normal.spec_dot(light_direction(hit, light)).spec_max(
        Scalar::spec_zero(),
    ).spec_min(Scalar::spec_one());
    assert(cosine@ == SCALE);
    lemma_color_scale_by_views(material.diffuse, material.diffuse_weight());
    lemma_color_scale_by_views(material.diffuse, cosine);
    lemma_color_scale_by_views(material.diffuse, lit);
    assert(surface_color(hit) == material.diffuse);
    assert(spec_diffuse(hit, light, objects) == material.diffuse);
    lemma_color_scale_by_views(light.color, material.specular_weight());
    let view = ray_origin.spec_sub(hit.point).spec_normalize();
    let mirrored = spec_reflect(light_direction(hit, light).spec_neg(), hit.normal).spec_normalize();
    let highlight = view.spec_dot(mirrored).spec_max(Scalar::spec_zero()).spec_powf(
        material.specular,
    );
    lemma_black_stays_black(highlight);
    lemma_black_stays_black(lit);
    assert(spec_specular(ray_origin, hit, light, objects) == Color::spec_black());
}

/// Scaling a colour by a number that reads as one changes nothing, and by a
/// number that reads as zero gives black.
pub proof fn lemma_color_scale_by_views(c: Color, k: Scalar)
    ensures
        k@ == SCALE ==> c.spec_scale(k) == c,
        k@ == 0 ==> c.spec_scale(k) == Color::spec_black(),
{
    lemma_color_scale_unit(c, Scalar::spec_zero());
}

/// Black stays black, whatever it is scaled by.
pub proof fn lemma_black_stays_black(k: Scalar)
    ensures
        Color::spec_black().spec_scale(k) == Color::spec_black(),
{
    assert(0 * k@ == 0) by (nonlinear_arith);
}

/// Mirroring does not depend on which side the normal points to.
pub proof fn lemma_reflect_ignores_side(incident: Vec3, normal: Vec3)
    ensures
        spec_reflect(incident, normal.spec_neg()) == spec_reflect(incident, normal),
{
    lemma_dot_neg(incident, normal);
    lemma_mul_neg(Scalar::spec_from_int(2), incident.spec_dot(normal));
    lemma_scale_neg_neg(normal, Scalar::spec_from_int(2).spec_mul(incident.spec_dot(normal)));
}

/// Where the discriminant is negative no ray is transmitted, and refraction
/// gives the mirrored direction for the same incident ray and normal.
pub proof fn lemma_total_internal_reflection(incident: Vec3, normal: Vec3, eta_t: Scalar)
    requires
        discriminant(incident, normal, eta_t)@ < 0,
    ensures
        spec_refract(incident, normal, eta_t) == spec_reflect(incident, normal),
{
    lemma_reflect_ignores_side(incident, normal);
}

} // verus!
