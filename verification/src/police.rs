//! Configuration of the police-light effect.
//!
//! The effects engine itself lives outside this crate; only the plain
//! configuration value it persists per effect is defined here, so the
//! control plane and the effect agree on its shape.

use vstd::prelude::*;

use crate::color::Rgba;

verus! {

/// What the police-light effect flashes: a single color.
#[derive(Clone, Copy, PartialEq, Eq, Structural, Debug)]
pub struct PoliceConfig {
    pub color: Rgba,
}

impl Default for PoliceConfig {
    /// Transparent black until an operator picks a color.
    fn default() -> (r: PoliceConfig)
        ensures
            r.color == Rgba::spec_default(),
    {
        PoliceConfig { color: Rgba { red: 0, green: 0, blue: 0, alpha: 0 } }
    }
}

} // verus!
