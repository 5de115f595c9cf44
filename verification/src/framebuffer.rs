//! The pixel buffer that a rendering pass fills.

use vstd::prelude::*;
use crate::color::Color;

verus! {

/// A grid of `width` by `height` pixels, stored row by row as `0xRRGGBB`.
pub struct Framebuffer {
    width: usize,
    height: usize,
    buffer: Vec<u32>,
    background_color: u32,
    current_color: u32,
}

impl Framebuffer {
    #[verifier::type_invariant]
    spec fn holds_every_pixel(self) -> bool {
        self.buffer@.len() == self.width * self.height
    }

    pub closed spec fn spec_width(&self) -> usize {
        self.width
    }

    pub closed spec fn spec_height(&self) -> usize {
        self.height
    }

    /// The pixels, row by row.
    pub closed spec fn view(&self) -> Seq<u32> {
        self.buffer@
    }

    /// The colour that `clear` fills the buffer with.
    pub closed spec fn background(&self) -> u32 {
        self.background_color
    }

    /// The colour that `point` draws with.
    pub closed spec fn pen(&self) -> u32 {
        self.current_color
    }

    /// The pixel in column `x` of row `y`.
    pub open spec fn pixel(&self, x: int, y: int) -> u32 {
        self@[y * self.spec_width() + x]
    }

    /// A black buffer of `width` by `height` pixels that draws in white.
    pub fn new(width: usize, height: usize) -> (fb: Framebuffer)
        requires
            width * height <= usize::MAX,
        ensures
            fb.spec_width() == width,
            fb.spec_height() == height,
            fb@.len() == width * height,
            forall|i: int| 0 <= i < fb@.len() ==> fb@[i] == 0,
            fb.background() == 0,
            fb.pen() == 0xFFFFFF,
    {
        let size = width * height;
        let mut buffer: Vec<u32> = Vec::new();
        let mut i: usize = 0;
        while i < size
            invariant
                i <= size,
                buffer@.len() == i,
                forall|j: int| 0 <= j < i ==> buffer@[j] == 0,
            decreases size - i,
        {
            buffer.push(0);
            i += 1;
        }
        Framebuffer { width, height, buffer, background_color: 0, current_color: 0xFFFFFF }
    }

    #[verifier::when_used_as_spec(spec_width)]
    pub fn width(&self) -> (w: usize)
        ensures
            w == self.spec_width(),
    {
        self.width
    }

    #[verifier::when_used_as_spec(spec_height)]
    pub fn height(&self) -> (h: usize)
        ensures
            h == self.spec_height(),
    {
        self.height
    }

    /// The pixels, row by row.
    pub fn buffer(&self) -> (pixels: &Vec<u32>)
        ensures
            pixels@ == self@,
            pixels@.len() == self.spec_width() * self.spec_height(),
    {
        proof {
            use_type_invariant(self);
        }
        &self.buffer
    }

    pub fn set_background_color(&mut self, color: u32)
        ensures
            final(self).background() == color,
            final(self).pen() == old(self).pen(),
            final(self)@ == old(self)@,
            final(self).spec_width() == old(self).spec_width(),
            final(self).spec_height() == old(self).spec_height(),
    {
        proof {
            use_type_invariant(&*self);
        }
        self.background_color = color;
    }

    pub fn set_current_color(&mut self, color: u32)
        ensures
            final(self).pen() == color,
            final(self).background() == old(self).background(),
            final(self)@ == old(self)@,
            final(self).spec_width() == old(self).spec_width(),
            final(self).spec_height() == old(self).spec_height(),
    {
        proof {
            use_type_invariant(&*self);
        }
        self.current_color = color;
    }

    /// Fills the buffer with the background colour.
    pub fn clear(&mut self)
        ensures
            final(self)@.len() == old(self)@.len(),
            forall|i: int| 0 <= i < final(self)@.len() ==> final(self)@[i] == old(self).background(),
            final(self).background() == old(self).background(),
            final(self).pen() == old(self).pen(),
            final(self).spec_width() == old(self).spec_width(),
            final(self).spec_height() == old(self).spec_height(),
    {
        proof {
            use_type_invariant(&*self);
        }
        let n = self.buffer.len();
        let color = self.background_color;
        let mut i: usize = 0;
        while i < n
            invariant
                i <= n,
                n == self.buffer@.len(),
                self.buffer@.len() == self.width * self.height,
                self.width == old(self).width,
                self.height == old(self).height,
                self.background_color == old(self).background_color,
                self.current_color == old(self).current_color,
                color == self.background_color,
                forall|j: int| 0 <= j < i ==> self.buffer@[j] == color,
            decreases n - i,
        {
            self.buffer[i] = color;
            i += 1;
        }
    }

    /// Draws the pixel in column `x` of row `y` in the current colour.
    /// Outside the grid nothing is drawn.
    pub fn point(&mut self, x: usize, y: usize)
        ensures
            final(self).spec_width() == old(self).spec_width(),
            final(self).spec_height() == old(self).spec_height(),
            final(self).background() == old(self).background(),
            final(self).pen() == old(self).pen(),
            x < old(self).spec_width() && y < old(self).spec_height() ==> final(self)@ == old(
                self,
            )@.update(y * old(self).spec_width() + x, old(self).pen()),
            !(x < old(self).spec_width() && y < old(self).spec_height()) ==> final(self)@ == old(
                self,
            )@,
    {
        proof {
            use_type_invariant(&*self);
        }
        let n = self.buffer.len();
        if x < self.width && y < self.height {
            assert(0 <= y * self.width && y * self.width + x < self.width * self.height)
                by (nonlinear_arith)
                requires
                    0 <= x < self.width,
                    0 <= y < self.height,
            ;
            assert(y * self.width + x < n);
            let index = y * self.width + x;
            self.buffer[index] = self.current_color;
        }
    }

    /// Draws the pixel in column `x` of row `y` in `color`, which becomes
    /// the current colour.
    pub fn set_pixel(&mut self, x: usize, y: usize, color: Color)
        ensures
            final(self).spec_width() == old(self).spec_width(),
            final(self).spec_height() == old(self).spec_height(),
            final(self).background() == old(self).background(),
            final(self).pen() == color.spec_to_hex(),
            x < old(self).spec_width() && y < old(self).spec_height() ==> final(self)@ == old(
                self,
            )@.update(y * old(self).spec_width() + x, color.spec_to_hex()),
            !(x < old(self).spec_width() && y < old(self).spec_height()) ==> final(self)@ == old(
                self,
            )@,
    {
        self.set_current_color(color.to_hex());
        self.point(x, y);
    }
}

} // verus!
