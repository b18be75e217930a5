//! The pixel-state grid.
//!
//! One contiguous, fixed-size buffer holds every pixel of the
//! installation, `STRIPS` rows of `LEDS_PER_STRIP` pixels each, row-major
//! by strip.  Two bounds-checked accessors address it: one by
//! `(strip, position)` and one by flat index.  The grid is never resized.

use vstd::prelude::*;

use crate::color::Rgba;
use crate::GRID_SIZE;
use crate::LEDS_PER_STRIP;
use crate::STRIPS;

verus! {

/// The flat position of pixel `i` of strip `strip`.
pub open spec fn spec_flat_index(strip: int, i: int) -> int {
    strip * LEDS_PER_STRIP + i
}

/// The full pixel state of the installation, exclusively owned by the
/// controller and mutated only through its accessors.
pub struct PixelGrid {
    pixels: Vec<Rgba>,
}

impl PixelGrid {
    /// The grid always holds exactly `GRID_SIZE` pixels.
    pub open spec fn wf(&self) -> bool {
        self@.len() == GRID_SIZE
    }

    /// The pixels as a flat sequence, row-major by strip.
    pub closed spec fn view(&self) -> Seq<Rgba> {
        self.pixels@
    }

    /// A fresh grid: every pixel is transparent black.
    pub fn new() -> (r: PixelGrid)
        ensures
            r.wf(),
            r@.len() == GRID_SIZE,
            forall|i: int| 0 <= i < GRID_SIZE ==> r@[i] == Rgba::spec_default(),
    {
        let mut pixels: Vec<Rgba> = Vec::new();
        let mut n: usize = 0;
        while n < GRID_SIZE
            invariant
                n <= GRID_SIZE,
                pixels@.len() == n,
                forall|i: int| 0 <= i < n ==> pixels@[i] == Rgba::spec_default(),
            decreases GRID_SIZE - n,
        {
            pixels.push(Rgba { red: 0, green: 0, blue: 0, alpha: 0 });
            n = n + 1;
        }
        PixelGrid { pixels }
    }

    /// Flat position of `(strip, i)`; stays inside the grid.
    pub fn flat_index(strip: usize, i: usize) -> (r: usize)
        requires
            strip < STRIPS,
            i < LEDS_PER_STRIP,
        ensures
            r == spec_flat_index(strip as int, i as int),
            r < GRID_SIZE,
    {
        strip * LEDS_PER_STRIP + i
    }

    /// Read one pixel by `(strip, position)`.
    pub fn get(&self, strip: usize, i: usize) -> (r: Rgba)
        requires
            self.wf(),
            strip < STRIPS,
            i < LEDS_PER_STRIP,
        ensures
            r == self@[spec_flat_index(strip as int, i as int)],
    {
        let idx = Self::flat_index(strip, i);
        self.pixels[idx]
    }

    /// Overwrite one pixel by `(strip, position)`.
    pub fn set(&mut self, strip: usize, i: usize, v: Rgba)
        requires
            old(self).wf(),
            strip < STRIPS,
            i < LEDS_PER_STRIP,
        ensures
            final(self).wf(),
            final(self)@ == old(self)@.update(spec_flat_index(strip as int, i as int), v),
    {
        let idx = Self::flat_index(strip, i);
        self.pixels.set(idx, v);
    }

    /// Read one pixel by flat index.
    pub fn get_flat(&self, i: usize) -> (r: Rgba)
        requires
            self.wf(),
            i < GRID_SIZE,
        ensures
            r == self@[i as int],
    {
        self.pixels[i]
    }

    /// Overwrite one pixel by flat index.
    pub fn set_flat(&mut self, i: usize, v: Rgba)
        requires
            old(self).wf(),
            i < GRID_SIZE,
        ensures
            final(self).wf(),
            final(self)@ == old(self)@.update(i as int, v),
    {
        self.pixels.set(i, v);
    }

    /// Number of pixels in the grid.
    pub fn len(&self) -> (r: usize)
        requires
            self.wf(),
        ensures
            r == GRID_SIZE,
    {
        self.pixels.len()
    }
}

} // verus!
