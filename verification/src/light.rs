//! The one point light of a scene.

use vstd::prelude::*;
use crate::color::Color;
use crate::scalar::Scalar;
use crate::vector::Vec3;

verus! {

/// A point light.
#[derive(Clone, Copy, Debug)]
pub struct Light {
    pub position: Vec3,
    pub color: Color,
    pub intensity: Scalar,
}

impl Light {
    /// Where the light stands by day and by night.
    pub open spec fn position_at(is_day: bool) -> Vec3 {
        if is_day {
            Vec3::spec_from_ints(2, 5, 5)
        } else {
            Vec3 {
                x: Scalar::spec_from_int(2).spec_neg(),
                y: Scalar::spec_from_int(5),
                z: Scalar::spec_from_int(5),
            }
        }
    }

    /// The colour of the light by day and by night.
    pub open spec fn color_at(is_day: bool) -> Color {
        if is_day {
            Color::spec_new(255, 255, 255)
        } else {
            Color::spec_new(100, 100, 200)
        }
    }

    pub fn new(position: Vec3, color: Color, intensity: Scalar) -> (light: Light)
        ensures
            light == (Light { position, color, intensity }),
    {
        Light { position, color, intensity }
    }

    /// Moves and tints the light for day or night. Its intensity stays.
    pub fn set_time_of_day(&mut self, is_day: bool)
        ensures
            final(self).position == Light::position_at(is_day),
            final(self).color == Light::color_at(is_day),
            final(self).intensity == old(self).intensity,
    {
        if is_day {
            self.position = Vec3::from_ints(2, 5, 5);
            self.color = Color::new(255, 255, 255);
        } else {
            self.position = Vec3::new(
                Scalar::from_int(2).neg(),
                Scalar::from_int(5),
                Scalar::from_int(5),
            );
            self.color = Color::new(100, 100, 200);
        }
    }
}

} // verus!
