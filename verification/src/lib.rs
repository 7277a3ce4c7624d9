//! A particle-swarm simulator on a toroidal 2D domain, steered by the
//! brightness of a fixed background raster, together with the bookkeeping
//! types of the renderer that consumes the particle array.
//!
//! All coordinates, velocities and brightness values are fixed-point
//! integers in milli-units (a value of 1000 stands for 1.0), so that the
//! whole simulation step is expressible and proved in integer arithmetic.

use vstd::prelude::*;

pub mod fixed;
pub mod glx;
pub mod particle;
pub mod points_simulator;
pub mod program_unit;
pub mod raster;
pub mod render;
mod rng;
pub mod shader_program;
pub mod shaders;
pub mod space;

pub use glx::WindowConfig;
pub use glx::WindowSizeInfo;
pub use glx::padded_stride;
pub use glx::unpack_frame;
pub use particle::Point;
pub use particle::Position;
pub use particle::Velocity;
pub use points_simulator::PointsSimulator;
pub use program_unit::ProgramUnit;
pub use raster::Raster;
pub use raster::calculate_relative_brightness;
pub use render::RendererConfig;
pub use shader_program::ShaderError;
pub use shader_program::compilation_outcome;
pub use shader_program::linking_outcome;
pub use shaders::LinesRenderProgram;
pub use shaders::TriangleRenderProgram;
pub use space::SimulationSpace;

verus! {

/// A configuration fault found while the simulator is being assembled.
#[derive(Debug, Clone, Copy, PartialEq, Eq, Structural)]
pub enum ConfigError {
    /// The viewport has a zero width or height.
    EmptySpace,
    /// The raster's byte count does not match three channels per pixel.
    BadImageShape,
    /// The raster is empty, or wider or taller than the sampler supports.
    BadImageSize,
}

} // verus!
