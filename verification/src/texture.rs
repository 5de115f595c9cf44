//! Textures: decoded images sampled at coordinates between zero and one.

use vstd::prelude::*;
use std::rc::Rc;
use image::DynamicImage;
use image::GenericImageView;
use crate::color::Color;
use crate::scalar::{quotient, Scalar, LIMIT, SCALE};

verus! {

/// `image::DynamicImage`, a decoded image. Nothing inside it is visible
/// here: what the library reads of it goes by the two names below.
#[verifier::external_type_specification]
#[verifier::external_body]
pub struct ExDynamicImage(DynamicImage);

/// What a decoded image holds: red, green and blue, as eight-bit channels,
/// of the pixel in each column and row.
pub uninterp spec fn image_pixels(image: DynamicImage) -> Map<(u32, u32), (u8, u8, u8)>;

/// The numbers of pixel columns and of pixel rows of a decoded image.
pub uninterp spec fn image_size(image: DynamicImage) -> (u32, u32);

/// The number of pixel columns of a decoded image.
pub open spec fn image_width(image: DynamicImage) -> u32 {
    image_size(image).0
}

/// The number of pixel rows of a decoded image.
pub open spec fn image_height(image: DynamicImage) -> u32 {
    image_size(image).1
}

/// `DynamicImage::width`: the width of the image in pixels. The contract
/// only gives that number its name.
#[verifier::external_body]
fn width_of(image: &DynamicImage) -> (w: u32)
    ensures
        w == image_size(*image).0,
{
    image.width()
}

/// `DynamicImage::height`: the height of the image in pixels. The contract
/// only gives that number its name.
#[verifier::external_body]
fn height_of(image: &DynamicImage) -> (h: u32)
    ensures
        h == image_size(*image).1,
{
    image.height()
}

/// `GenericImageView::get_pixel` on a `DynamicImage`: the pixel at `(x, y)`
/// converted to eight-bit RGBA, of which the colour channels are kept. The
/// contract only gives them their name. The call panics outside the image,
/// so the coordinates must lie inside it.
#[verifier::external_body]
fn pixel_of(image: &DynamicImage, x: u32, y: u32) -> (c: Color)
    requires
        x < image_size(*image).0,
        y < image_size(*image).1,
    ensures
        (c.r, c.g, c.b) == image_pixels(*image)[(x, y)],
{
    let pixel = image.get_pixel(x, y);
    Color { r: pixel.0[0], g: pixel.0[1], b: pixel.0[2] }
}

/// The pixel coordinate that the texture coordinate `t` selects along an
/// axis of `extent` pixels: `t * extent` rounded toward zero, kept inside
/// the image.
pub open spec fn texel_index(t: Scalar, extent: u32) -> u32 {
    let i = quotient(t@ * extent, SCALE as int);
    if i < 0 || extent == 0 {
        0u32
    } else if i > extent - 1 {
        (extent - 1) as u32
    } else {
        i as u32
    }
}

/// A shared image that has at least one pixel.
#[derive(Debug)]
pub struct Texture {
    image: Rc<DynamicImage>,
}

impl Clone for Texture {
    /// Another handle on the same image.
    fn clone(&self) -> (r: Texture)
        ensures
            r == *self,
    {
        proof {
            use_type_invariant(self);
        }
        Texture { image: Rc::clone(&self.image) }
    }
}

impl Texture {
    #[verifier::type_invariant]
    spec fn has_pixels(self) -> bool {
        image_width(*self.image) > 0 && image_height(*self.image) > 0
    }

    /// The image behind this texture.
    pub closed spec fn image(&self) -> DynamicImage {
        *self.image
    }

    pub open spec fn spec_width(&self) -> u32 {
        image_width(self.image())
    }

    pub open spec fn spec_height(&self) -> u32 {
        image_height(self.image())
    }

    /// The colour of the pixel in column `x` and row `y`.
    pub open spec fn texel(&self, x: u32, y: u32) -> Color {
        let p = image_pixels(self.image())[(x, y)];
        Color { r: p.0, g: p.1, b: p.2 }
    }

    /// The colour at texture coordinates `(u, v)`: `u` runs along the
    /// columns and `v` along the rows.
    pub open spec fn spec_get_color(&self, u: Scalar, v: Scalar) -> Color {
        self.texel(texel_index(u, self.spec_width()), texel_index(v, self.spec_height()))
    }

    pub open spec fn spec_sample(&self, uv: (Scalar, Scalar)) -> Color {
        self.spec_get_color(uv.0, uv.1)
    }

    /// Wraps a decoded image, unless it has no pixels.
    pub fn from_image(image: DynamicImage) -> (r: Option<Texture>)
        ensures
            r is Some <==> image_width(image) > 0 && image_height(image) > 0,
            r matches Some(t) ==> t.image() == image,
    {
        if width_of(&image) > 0 && height_of(&image) > 0 {
            Some(Texture { image: Rc::new(image) })
        } else {
            None
        }
    }

    #[verifier::when_used_as_spec(spec_width)]
    pub fn width(&self) -> (w: u32)
        ensures
            w == self.spec_width(),
            w > 0,
    {
        proof {
            use_type_invariant(self);
        }
        width_of(&self.image)
    }

    #[verifier::when_used_as_spec(spec_height)]
    pub fn height(&self) -> (h: u32)
        ensures
            h == self.spec_height(),
            h > 0,
    {
        proof {
            use_type_invariant(self);
        }
        height_of(&self.image)
    }

    #[verifier::when_used_as_spec(spec_get_color)]
    pub fn get_color(&self, u: Scalar, v: Scalar) -> (c: Color)
        ensures
            c == self.spec_get_color(u, v),
    {
        let x = Texture::index(u, self.width());
        let y = Texture::index(v, self.height());
        pixel_of(&self.image, x, y)
    }

    #[verifier::when_used_as_spec(spec_sample)]
    pub fn sample(&self, uv: (Scalar, Scalar)) -> (c: Color)
        ensures
            c == self.spec_sample(uv),
    {
        self.get_color(uv.0, uv.1)
    }

    fn index(t: Scalar, extent: u32) -> (i: u32)
        requires
            extent > 0,
        ensures
            i == texel_index(t, extent),
            i < extent,
    {
        let coordinate: i128 = t.units() as i128;
        let pixels: i128 = extent as i128;
        let scale: i128 = SCALE as i128;
        assert(-(LIMIT * 0x1_0000_0000) <= coordinate * pixels <= LIMIT * 0x1_0000_0000)
            by (nonlinear_arith)
            requires
                -LIMIT <= coordinate <= LIMIT,
                0 <= pixels <= 0x1_0000_0000,
        ;
        let product: i128 = coordinate * pixels;
        if product < 0 {
            0
        } else {
            let i: i128 = product / scale;
            if i > pixels - 1 {
                extent - 1
            } else {
                i as u32
            }
        }
    }
}

} // verus!
