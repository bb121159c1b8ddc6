use vstd::prelude::*;

use crate::config::RenderConfig;
use crate::layout::{Access, LayoutEntry, ResourceKind};

verus! {

/// Per-frame globals: the frame number, the render size, and one work cursor per
/// kernel stage that the kernels advance atomically to claim work.
#[derive(Clone, Copy, Debug, PartialEq, Eq, Structural)]
pub struct GlobalsGPU {
    pub frame: u32,
    pub render_width: u32,
    pub render_height: u32,
    pub samples_per_ray: u32,
    pub clear_index: u32,
    pub generate_index: u32,
    pub intersect_index: u32,
    pub shade_index: u32,
    pub collect_index: u32,
}

/// Host-side owner of the globals buffer, with the number the next frame gets.
#[derive(Debug)]
pub struct GlobalsGPUStorage {
    pub buffer: GlobalsGPU,
    pub next_frame: u32,
}

impl GlobalsGPU {
    /// All work cursors are zero.
    pub open spec fn cursors_reset(&self) -> bool {
        &&& self.clear_index == 0
        &&& self.generate_index == 0
        &&& self.intersect_index == 0
        &&& self.shade_index == 0
        &&& self.collect_index == 0
    }

    /// Globals before any frame.
    pub fn new() -> (r: GlobalsGPU)
        ensures
            r.cursors_reset(),
            r.frame == 0,
            r.render_width == 0,
            r.render_height == 0,
            r.samples_per_ray == 0,
    {
        GlobalsGPU {
            frame: 0,
            render_width: 0,
            render_height: 0,
            samples_per_ray: 0,
            clear_index: 0,
            generate_index: 0,
            intersect_index: 0,
            shade_index: 0,
            collect_index: 0,
        }
    }

    /// Writes the render size and zeroes every work cursor; the frame is kept.
    pub fn reset(&mut self, config: &RenderConfig)
        ensures
            final(self).cursors_reset(),
            final(self).frame == old(self).frame,
            final(self).render_width == config.width,
            final(self).render_height == config.height,
            final(self).samples_per_ray == config.samples_per_ray,
    {
        self.render_width = config.width;
        self.render_height = config.height;
        self.samples_per_ray = config.samples_per_ray;
        self.clear_index = 0;
        self.generate_index = 0;
        self.intersect_index = 0;
        self.shade_index = 0;
        self.collect_index = 0;
    }
}

impl GlobalsGPUStorage {
    /// Globals of a session that has not drawn a frame yet.
    pub fn new() -> (r: GlobalsGPUStorage)
        ensures
            r.next_frame == 0,
            r.buffer.cursors_reset(),
    {
        GlobalsGPUStorage { buffer: GlobalsGPU::new(), next_frame: 0 }
    }
}

/// Fills the globals for a new frame: render size, zeroed cursors, and the next
/// frame number, which then advances by one. The counter is never reset.
pub fn prepare(globals: &mut GlobalsGPUStorage, config: &RenderConfig)
    requires
        old(globals).next_frame < u32::MAX,
    ensures
        final(globals).buffer.cursors_reset(),
        final(globals).buffer.frame == old(globals).next_frame,
        final(globals).next_frame == old(globals).next_frame + 1,
        final(globals).buffer.render_width == config.width,
        final(globals).buffer.render_height == config.height,
        final(globals).buffer.samples_per_ray == config.samples_per_ray,
{
    globals.buffer.reset(config);
    globals.buffer.frame = globals.next_frame;
    globals.next_frame = globals.next_frame + 1;
}

/// Slot of the globals buffer: the kernels advance its cursors, so read-write.
pub fn describe(binding: u32) -> (r: LayoutEntry)
    ensures
        r == (LayoutEntry { binding, access: Access::ReadWrite, kind: ResourceKind::StorageBuffer }),
{
    LayoutEntry::new(binding, Access::ReadWrite, ResourceKind::StorageBuffer)
}

} // verus!
