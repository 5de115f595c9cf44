//! Surface materials.

use vstd::prelude::*;
use std::rc::Rc;
use crate::color::Color;
use crate::scalar::Scalar;
use crate::texture::Texture;

verus! {

/// How a surface answers to light. A material is built once and shared by
/// all the shapes that wear it.
#[derive(Debug, Clone)]
pub struct Material {
    /// Base colour, used where there is no texture.
    pub diffuse: Color,
    /// Exponent of the specular highlight.
    pub specular: Scalar,
    /// Weights of the diffuse term, the specular term, the reflected ray and
    /// the refracted ray, in that order.
    pub albedo: [Scalar; 4],
    pub refractive_index: Scalar,
    pub texture: Option<Rc<Texture>>,
    /// Light that the surface gives off by itself.
    pub emissive_color: Color,
}

impl Material {
    pub open spec fn spec_black() -> Material {
        Material {
            diffuse: Color::spec_black(),
            specular: Scalar::spec_zero(),
            albedo: [
                Scalar::spec_zero(),
                Scalar::spec_zero(),
                Scalar::spec_zero(),
                Scalar::spec_zero(),
            ],
            refractive_index: Scalar::spec_zero(),
            texture: None,
            emissive_color: Color::spec_black(),
        }
    }

    /// Weight of the diffuse term.
    pub open spec fn diffuse_weight(self) -> Scalar {
        self.albedo[0]
    }

    /// Weight of the specular term.
    pub open spec fn specular_weight(self) -> Scalar {
        self.albedo[1]
    }

    /// Share of the colour that comes from the reflected ray.
    pub open spec fn reflectivity(self) -> Scalar {
        self.albedo[2]
    }

    /// Share of the colour that comes from the refracted ray.
    pub open spec fn transparency(self) -> Scalar {
        self.albedo[3]
    }

    /// The colour of the surface at texture coordinates `uv`: the texture's
    /// where there is one, else the base colour.
    pub open spec fn spec_surface_color(&self, uv: (Scalar, Scalar)) -> Color {
        match self.texture {
            Some(texture) => texture.spec_sample(uv),
            None => self.diffuse,
        }
    }

    pub fn new(
        diffuse: Color,
        specular: Scalar,
        albedo: [Scalar; 4],
        refractive_index: Scalar,
        texture: Option<Rc<Texture>>,
        emissive_color: Color,
    ) -> (m: Material)
        ensures
            m == (Material { diffuse, specular, albedo, refractive_index, texture, emissive_color }),
    {
        Material { diffuse, specular, albedo, refractive_index, texture, emissive_color }
    }

    /// A material that shows and returns no light.
    #[verifier::when_used_as_spec(spec_black)]
    pub fn black() -> (m: Material)
        ensures
            m == Material::spec_black(),
    {
        Material {
            diffuse: Color::new(0, 0, 0),
            specular: Scalar::zero(),
            albedo: [Scalar::zero(), Scalar::zero(), Scalar::zero(), Scalar::zero()],
            refractive_index: Scalar::zero(),
            texture: None,
            emissive_color: Color::new(0, 0, 0),
        }
    }

    #[verifier::when_used_as_spec(spec_surface_color)]
    pub fn surface_color(&self, uv: (Scalar, Scalar)) -> (c: Color)
        ensures
            c == self.spec_surface_color(uv),
    {
        match &self.texture {
            Some(texture) => texture.sample(uv),
            None => self.diffuse,
        }
    }
}

} // verus!
