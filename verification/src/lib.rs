//! Driver core for a multi-strip addressable LED installation.
//!
//! The crate owns the per-pixel color state of the installation, maps it
//! onto the physical wiring topology (possibly inverted sections of each
//! strip), encodes it into the byte format the peripheral expects, and
//! decides every step of the handshake-based transfer protocol.  All
//! hardware access (bus transfers, the ready line) is left to the caller,
//! which performs the actions this crate requests.

use vstd::prelude::*;

pub mod color;
pub mod controller;
pub mod grid;
pub mod pipeline;
pub mod police;
pub mod section;
pub mod transport;
pub mod views;

pub use color::Rgba;
pub use controller::Controller;
pub use controller::LedController;
pub use grid::PixelGrid;
pub use pipeline::ControllerConfig;
pub use police::PoliceConfig;
pub use section::FracIndex;
pub use section::FracRangeBound;
pub use section::RangeBound;
pub use section::Section;
pub use transport::Action;
pub use transport::CycleOutcome;
pub use transport::Event;
pub use transport::Phase;
pub use views::Views;

verus! {

/// Number of LEDs on one physical strip.
pub const LEDS_PER_STRIP: usize = 480;

/// Number of physical strips driven by the peripheral.
pub const STRIPS: usize = 8;

/// Total number of pixels in the grid.
pub const GRID_SIZE: usize = 3840;

/// The grid constants are consistent: `GRID_SIZE` is the pixel count of
/// the whole installation.
pub proof fn lemma_grid_size()
    ensures
        GRID_SIZE == LEDS_PER_STRIP * STRIPS,
{
}

} // verus!
