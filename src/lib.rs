//! Orchestration core of a progressive compute ray tracer: render configuration,
//! GPU-layout mirrors of the scene, structured buffer sizing, bind-layout and
//! kernel-pipeline declarations, and the per-frame dispatch state machine.
//!
//! Values that the GPU reads as 32-bit floats are held here as their bit patterns
//! (`u32`); this crate only moves them and never computes with them.
use vstd::prelude::*;

pub mod bind_group;
pub mod buffers;
pub mod config;
pub mod device_layout;
pub mod gpu;
pub mod layout;
pub mod ray_trace_camera;
pub mod ray_trace_globals;
pub mod ray_trace_intersection;
pub mod ray_trace_materials;
pub mod ray_trace_node;
pub mod ray_trace_output;
pub mod ray_trace_pipeline;
pub mod ray_trace_rays;
pub mod session;
pub mod sphere;

verus! {

/// Width of the render target, in pixels.
pub const RENDER_WIDTH: u32 = 1920;

/// Height of the render target, in pixels.
pub const RENDER_HEIGHT: u32 = 1080;

/// Samples traced for each pixel.
pub const SAMPLES_PER_RAY: u32 = 1;

/// Work items in one compute workgroup.
pub const WORKGROUP_SIZE: u32 = 128;

/// Number of {prepass, intersect, shade} bounces in each frame.
pub const MAX_BOUNCES: u32 = 3;

} // verus!
