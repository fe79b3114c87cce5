//! The picture: one shade (0 lightest to 3 darkest) per pixel.

use vstd::prelude::*;

verus! {

pub const WIDTH: usize = 160;

pub const HEIGHT: usize = 144;

pub struct Framebuffer {
    pub pixels: [u8; 23040],
}

impl View for Framebuffer {
    type V = Seq<u8>;

    /// The pixels row by row, top left first.
    open spec fn view(&self) -> Seq<u8> {
        self.pixels@
    }
}

impl Framebuffer {
    /// All shade 0.
    pub fn new() -> (r: Self)
        ensures
            r@ == Seq::new(23040, |i: int| 0u8),
    {
        let r = Self { pixels: [0; 23040] };
        assert(r@ =~= Seq::new(23040, |i: int| 0u8));
        r
    }

    /// The pixels row by row, top left first.
    pub fn as_slice(&self) -> (r: &[u8])
        ensures
            r@ == self@,
            r@.len() == WIDTH * HEIGHT,
    {
        self.pixels.as_slice()
    }

    pub fn pixel(&self, x: usize, y: usize) -> (r: u8)
        requires
            x < WIDTH,
            y < HEIGHT,
        ensures
            r == self@[y * WIDTH + x],
    {
        self.pixels[y * WIDTH + x]
    }

    pub fn set_pixel(&mut self, x: usize, y: usize, shade: u8)
        requires
            x < WIDTH,
            y < HEIGHT,
        ensures
            final(self)@ == old(self)@.update(y * WIDTH + x, shade),
    {
        self.pixels[y * WIDTH + x] = shade;
    }
}

impl Default for Framebuffer {
    fn default() -> (r: Self)
        ensures
            r@ == Seq::new(23040, |i: int| 0u8),
    {
        Self::new()
    }
}

} // verus!
