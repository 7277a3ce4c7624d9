//! What the renderer is configured with.  The drawing itself — contexts,
//! buffers, draw calls — belongs to the graphics layer; the simulator
//! only hands it the particle array, read-only, after each step.

use vstd::prelude::*;
use crate::glx::WindowSizeInfo;

verus! {

/// The renderer's construction-time configuration.
#[derive(Debug, Clone, Copy, PartialEq, Eq, Structural)]
pub struct RendererConfig {
    pub size: WindowSizeInfo,
}

} // verus!
