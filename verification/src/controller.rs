//! The controller: pixel state, transfer buffers and configuration.
//!
//! The controller owns the pixel grid, the reusable write buffer the
//! color pipeline encodes into, the all-zero buffer the recovery
//! transfer sends, and the process-wide rendering configuration.  The
//! hardware handles themselves (the bus and the ready line) belong to
//! the caller, which drives the transfer protocol of
//! [`crate::transport`] with the buffers exposed here.

use vstd::prelude::*;

use crate::color::Rgba;
use crate::grid::PixelGrid;
use crate::pipeline::encode_grid;
use crate::pipeline::spec_encode_pixel;
use crate::pipeline::ControllerConfig;
use crate::section::Section;
use crate::views::Views;
use crate::GRID_SIZE;
use crate::LEDS_PER_STRIP;
use crate::STRIPS;

verus! {

/// Pixel-write surface shared by every controller backend: the grid,
/// the topology views over it, and free-form sections.
pub trait LedController: Sized {
    /// The pixel state as a flat sequence.
    spec fn grid_view(&self) -> Seq<Rgba>;

    /// The controller's invariant.
    spec fn lc_wf(&self) -> bool;

    /// Exclusive access to the full pixel grid, for callers that
    /// address pixels directly by `(strip, position)` or flat index.
    fn state_mut(&mut self) -> (r: &mut PixelGrid)
        requires
            old(self).lc_wf(),
        ensures
            (*r).wf(),
            (*r)@ == old(self).grid_view(),
            final(self).grid_view() == (*final(r))@,
            final(r).wf() ==> final(self).lc_wf(),
    ;

    /// The fixed topology views over the grid.
    fn views_mut(&mut self) -> (r: Views)
        requires
            old(self).lc_wf(),
        ensures
            *final(self) == *old(self),
            r.wf(),
    ;

    /// A free-form section over `len` pixels of one strip, starting at
    /// `start`, reversed when the run is wired backwards.
    fn section(&mut self, strip: usize, start: usize, len: usize, reversed: bool) -> (r: Section)
        requires
            old(self).lc_wf(),
            strip < STRIPS,
            start + len <= LEDS_PER_STRIP,
        ensures
            *final(self) == *old(self),
            r == (Section { start: (strip * LEDS_PER_STRIP + start) as usize, len, inverted: reversed }),
            r.wf(),
    ;
}

/// The hardware controller's verified core.
pub struct Controller {
    state: PixelGrid,
    buffer: Vec<u8>,
    empty: Vec<u8>,
    config: ControllerConfig,
}

impl Controller {
    /// The pixel state.
    pub closed spec fn spec_state(&self) -> PixelGrid {
        self.state
    }

    /// The write buffer the pipeline encodes into.
    pub closed spec fn spec_buffer(&self) -> Seq<u8> {
        self.buffer@
    }

    /// The all-zero recovery buffer.
    pub closed spec fn spec_empty(&self) -> Seq<u8> {
        self.empty@
    }

    /// The rendering configuration.
    pub closed spec fn spec_config(&self) -> ControllerConfig {
        self.config
    }

    /// The grid is whole, both transfer buffers have the frame size,
    /// and the recovery buffer holds only zeros.
    pub open spec fn wf(&self) -> bool {
        &&& self.spec_state().wf()
        &&& self.spec_buffer().len() == 3 * GRID_SIZE
        &&& self.spec_empty().len() == 3 * GRID_SIZE
        &&& forall|i: int| 0 <= i < self.spec_empty().len() ==> self.spec_empty()[i] == 0u8
    }

    /// A fresh controller: every pixel transparent black, both buffers
    /// zeroed, default configuration.  Acquiring the bus and the ready
    /// line is the hardware caller's business, before it ever calls
    /// here.
    pub fn new() -> (r: Controller)
        ensures
            r.wf(),
            forall|i: int|
                0 <= i < GRID_SIZE ==> r.spec_state()@[i] == Rgba::spec_default(),
            forall|i: int| 0 <= i < 3 * GRID_SIZE ==> r.spec_buffer()[i] == 0u8,
            r.spec_config() == (ControllerConfig { brightness: 255u8, as_srgb: false }),
    {
        let state = PixelGrid::new();
        let mut buffer: Vec<u8> = Vec::new();
        let mut empty: Vec<u8> = Vec::new();
        let mut n: usize = 0;
        while n < 3 * GRID_SIZE
            invariant
                n <= 3 * GRID_SIZE,
                buffer@.len() == n,
                empty@.len() == n,
                forall|i: int| 0 <= i < n ==> buffer@[i] == 0u8,
                forall|i: int| 0 <= i < n ==> empty@[i] == 0u8,
            decreases 3 * GRID_SIZE - n,
        {
            buffer.push(0);
            empty.push(0);
            n = n + 1;
        }
        Controller {
            state,
            buffer,
            empty,
            config: ControllerConfig { brightness: 255, as_srgb: false },
        }
    }

    /// Read the rendering configuration.  No hardware is touched.
    pub fn get_config(&self) -> (r: ControllerConfig)
        ensures
            r == self.spec_config(),
    {
        self.config
    }

    /// Replace the rendering configuration.  No hardware is touched.
    pub fn set_config(&mut self, config: ControllerConfig)
        ensures
            final(self).spec_config() == config,
            final(self).spec_state() == old(self).spec_state(),
            final(self).spec_buffer() == old(self).spec_buffer(),
            final(self).spec_empty() == old(self).spec_empty(),
            old(self).wf() ==> final(self).wf(),
    {
        self.config = config;
    }

    /// Run the color pipeline: encode the whole grid into the write
    /// buffer under the current configuration.  Only the buffer
    /// changes.
    pub fn encode_state(&mut self)
        requires
            old(self).wf(),
        ensures
            final(self).wf(),
            final(self).spec_state() == old(self).spec_state(),
            final(self).spec_empty() == old(self).spec_empty(),
            final(self).spec_config() == old(self).spec_config(),
            forall|i: int|
                0 <= i < GRID_SIZE ==> {
                    &&& final(self).spec_buffer()[3 * i] == spec_encode_pixel(
                        old(self).grid_view()[i],
                        old(self).spec_config(),
                    )[0]
                    &&& final(self).spec_buffer()[3 * i + 1] == spec_encode_pixel(
                        old(self).grid_view()[i],
                        old(self).spec_config(),
                    )[1]
                    &&& final(self).spec_buffer()[3 * i + 2] == spec_encode_pixel(
                        old(self).grid_view()[i],
                        old(self).spec_config(),
                    )[2]
                },
    {
        encode_grid(&self.state, &self.config, &mut self.buffer);
    }

    /// The encoded frame, ready to be transferred.
    pub fn buffer(&self) -> (r: &Vec<u8>)
        ensures
            r@ == self.spec_buffer(),
    {
        &self.buffer
    }

    /// The all-zero frame the recovery transfer sends.
    pub fn empty_buffer(&self) -> (r: &Vec<u8>)
        ensures
            r@ == self.spec_empty(),
    {
        &self.empty
    }
}

impl LedController for Controller {
    open spec fn grid_view(&self) -> Seq<Rgba> {
        self.spec_state()@
    }

    open spec fn lc_wf(&self) -> bool {
        self.wf()
    }

    fn state_mut(&mut self) -> (r: &mut PixelGrid) {
        &mut self.state
    }

    fn views_mut(&mut self) -> (r: Views) {
        Views::new()
    }

    fn section(&mut self, strip: usize, start: usize, len: usize, reversed: bool) -> (r: Section) {
        Section::new(strip * LEDS_PER_STRIP + start, len, reversed)
    }
}

} // verus!
