//! The camera: where the eye is and which way it looks.

use vstd::prelude::*;
use crate::scalar::{lemma_mul_by_units, Scalar};
use crate::vector::{lemma_axis_is_unit, Vec3};

verus! {

/// An eye that looks at `center`, with `up` marking which way is up.
#[derive(Clone, Copy, Debug)]
pub struct Camera {
    pub eye: Vec3,
    pub center: Vec3,
    pub up: Vec3,
    /// Set by every move of the camera; cleared by whoever redraws.
    pub has_changed: bool,
}

impl Camera {
    /// The unit vector from the eye to the point looked at.
    pub open spec fn spec_forward(&self) -> Vec3 {
        self.center.spec_sub(self.eye).spec_normalize()
    }

    /// The unit vector to the right of the view.
    pub open spec fn spec_right(&self) -> Vec3 {
        self.spec_forward().spec_cross(self.up).spec_normalize()
    }

    /// The unit vector up the view, square to `forward` and `right`.
    pub open spec fn spec_upward(&self) -> Vec3 {
        self.spec_right().spec_cross(self.spec_forward()).spec_normalize()
    }

    /// `vector`, given in the camera's own axes (x right, y up, z toward the
    /// eye), turned into the axes of the world and brought to unit length.
    pub open spec fn spec_base_change(&self, vector: Vec3) -> Vec3 {
        self.spec_right().spec_scale(vector.x).spec_add(
            self.spec_upward().spec_scale(vector.y),
        ).spec_sub(self.spec_forward().spec_scale(vector.z)).spec_normalize()
    }

    pub fn new(eye: Vec3, center: Vec3, up: Vec3) -> (camera: Camera)
        ensures
            camera == (Camera { eye, center, up, has_changed: true }),
    {
        Camera { eye, center, up, has_changed: true }
    }

    #[verifier::when_used_as_spec(spec_forward)]
    pub fn forward(&self) -> (r: Vec3)
        ensures
            r == self.spec_forward(),
    {
        self.center.sub(self.eye).normalize()
    }

    #[verifier::when_used_as_spec(spec_right)]
    pub fn right(&self) -> (r: Vec3)
        ensures
            r == self.spec_right(),
    {
        self.forward().cross(self.up).normalize()
    }

    #[verifier::when_used_as_spec(spec_upward)]
    pub fn upward(&self) -> (r: Vec3)
        ensures
            r == self.spec_upward(),
    {
        self.right().cross(self.forward()).normalize()
    }

    pub fn base_change(&self, vector: &Vec3) -> (r: Vec3)
        ensures
            r == self.spec_base_change(*vector),
    {
        let forward = self.forward();
        let right = forward.cross(self.up).normalize();
        let up = right.cross(forward).normalize();
        let rotated = right.scale(vector.x).add(up.scale(vector.y)).sub(forward.scale(vector.z));
        rotated.normalize()
    }

    /// Moves the eye by `delta` toward the point looked at.
    pub fn zoom(&mut self, delta: Scalar)
        ensures
            final(self).eye == old(self).eye.spec_add(old(self).spec_forward().spec_scale(delta)),
            final(self).center == old(self).center,
            final(self).up == old(self).up,
            final(self).has_changed,
    {
        let direction = self.forward();
        self.eye = self.eye.add(direction.scale(delta));
        self.has_changed = true;
    }
}

/// A camera that looks along minus z with y up has x to its right and y
/// above it.
pub proof fn lemma_straight_camera_axes(camera: Camera)
    requires
        camera.center.spec_sub(camera.eye) == Vec3::axis(2, false),
        camera.up == Vec3::axis(1, true),
    ensures
        camera.spec_forward() == Vec3::axis(2, false),
        camera.spec_right() == Vec3::axis(0, true),
        camera.spec_upward() == Vec3::axis(1, true),
{
    lemma_axis_is_unit(2, false);
    lemma_axis_is_unit(0, true);
    lemma_axis_is_unit(1, true);
    let one = Scalar::spec_one();
    lemma_mul_by_units(one);
    lemma_mul_by_units(one.spec_neg());
    lemma_mul_by_units(Scalar::spec_zero());
    let forward = camera.spec_forward();
    assert(forward == Vec3::axis(2, false));
    assert(forward.spec_cross(camera.up) == Vec3::axis(0, true));
    assert(Vec3::axis(0, true).spec_cross(forward) == Vec3::axis(1, true));
}

/// A camera that looks along minus z with y up leaves the direction of a
/// vector as it is: changing the base only brings it to unit length.
pub proof fn lemma_straight_camera_keeps_directions(camera: Camera, vector: Vec3)
    requires
        camera.center.spec_sub(camera.eye) == Vec3::axis(2, false),
        camera.up == Vec3::axis(1, true),
    ensures
        camera.spec_base_change(vector) == vector.spec_normalize(),
{
    lemma_straight_camera_axes(camera);
    lemma_mul_by_units(vector.x);
    lemma_mul_by_units(vector.y);
    lemma_mul_by_units(vector.z);
    let turned = camera.spec_right().spec_scale(vector.x).spec_add(
        camera.spec_upward().spec_scale(vector.y),
    ).spec_sub(camera.spec_forward().spec_scale(vector.z));
    assert(turned.x@ == vector.x@ && turned.y@ == vector.y@ && turned.z@ == vector.z@);
    assert(turned.square_sum() == vector.square_sum());
}

} // verus!
