//! Pixel colors and the fixed-capacity pixel frame painted onto the grid.
use vstd::prelude::*;

verus! {

/// Number of pixels on the physical button/LED grid.
pub const GRID_PIXELS: usize = 16;

/// One pixel color: three 8-bit intensity channels, no alpha.
#[derive(Clone, Copy, Debug, PartialEq, Eq, Structural)]
pub struct Rgb {
    pub r: u8,
    pub g: u8,
    pub b: u8,
}

/// An ordered sequence of pixel colors, at most `GRID_PIXELS` long.
/// Frames decoded from oversized payloads are truncated, never resized.
#[derive(Clone, Debug)]
pub struct PixelFrame {
    pub pixels: Vec<Rgb>,
}

impl View for PixelFrame {
    type V = Seq<Rgb>;

    open spec fn view(&self) -> Seq<Rgb> {
        self.pixels@
    }
}

impl PixelFrame {
    /// The capacity invariant: a frame never holds more pixels than the grid.
    pub open spec fn wf(&self) -> bool {
        self.pixels@.len() <= GRID_PIXELS
    }

    /// Number of pixels in the frame.
    pub fn len(&self) -> (n: usize)
        ensures
            n == self@.len(),
    {
        self.pixels.len()
    }

    /// The pixel at position `i`.
    pub fn get(&self, i: usize) -> (p: Rgb)
        requires
            i < self@.len(),
        ensures
            p == self@[i as int],
    {
        self.pixels[i]
    }
}

} // verus!
