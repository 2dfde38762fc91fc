//! The render device: command-buffer recording and the one in-flight
//! synchronization token that orders GPU work frame to frame.

use vstd::prelude::*;

use crate::call::DrawCmd;
use crate::pass::RenderPass;
use crate::scene::Scene;
use crate::targets::DynamicState;
use crate::types::Framebuffer;
use crate::material::PipelineBuilder;
use crate::vertex::BufferAllocator;

verus! {

/// A completion token: "the GPU work it stands for has been, or will have
/// been, signalled complete."
#[derive(Clone, Copy, PartialEq, Eq, Structural, Debug)]
pub enum FrameToken {
    /// The already-complete sentinel: waits for nothing.
    Now,
    /// The fence signalled when the given frame's submission finishes.
    Frame(u64),
}

/// The fixed clear color every pass begins with: opaque black, packed as
/// one RGBA byte per eight bits.
pub const CLEAR_COLOR_RGBA: u32 = 0x000000FF;

/// The fixed clear value of the depth attachment: the bit pattern of a
/// depth of one.
pub const CLEAR_DEPTH_BITS: u32 = 0x3F800000;

/// A finalized one-time-submit command buffer: scoped to one framebuffer,
/// carrying the viewport its draws were recorded with, begun by clearing
/// the attachments to the recorded values and ended after its commands.
#[derive(PartialEq, Eq, Debug)]
pub struct CommandBuffer {
    pub framebuffer: Framebuffer,
    pub viewport: Option<crate::targets::Viewport>,
    /// What the color attachment is cleared to when the pass begins.
    pub clear_color: u32,
    /// What the depth attachment is cleared to when the pass begins.
    pub clear_depth: u32,
    pub commands: Vec<DrawCmd>,
}

/// The logical device and queue, owning the single in-flight token and the
/// per-frame allocators for pipelines and vertex uploads.
#[derive(Clone, Copy, PartialEq, Eq, Structural, Debug)]
pub struct GfxDevice {
    /// Completes when the GPU has finished rendering the previous frame.
    /// Exactly one such token is stored at any time.
    pub previous_frame_end: FrameToken,
    /// Counts pipeline builds for the device's lifetime.
    pub pipelines: PipelineBuilder,
    /// Allocates this frame's vertex buffers; reset each frame.
    pub buffers: BufferAllocator,
}

impl GfxDevice {
    /// A fresh device: nothing in flight, nothing built, nothing uploaded.
    pub fn new() -> (r: GfxDevice)
        ensures
            r == (GfxDevice {
                previous_frame_end: FrameToken::Now,
                pipelines: PipelineBuilder { builds: 0 },
                buffers: BufferAllocator { frame: 0, next_id: 0 },
            }),
    {
        GfxDevice {
            previous_frame_end: FrameToken::Now,
            pipelines: PipelineBuilder { builds: 0 },
            buffers: BufferAllocator { frame: 0, next_id: 0 },
        }
    }

    /// Release driver-side bookkeeping for frames that have already
    /// completed. Called once per frame, before acquiring a new image; the
    /// released bookkeeping is GPU-side and has no model state.
    pub fn cleanup_finished(&mut self)
        ensures
            *final(self) == *old(self),
    {
    }

    /// Open a one-time-submit command buffer scoped to `frame_buffer`,
    /// begin the pass with the fixed clear values, record one draw call per
    /// drawable in scene order, end the pass and finalize the buffer.
    pub fn build_command_buffer(
        &mut self,
        frame_buffer: Framebuffer,
        dynamic_state: &DynamicState,
        scene: &mut Scene,
        render_pass: &mut RenderPass,
    ) -> (cmd: CommandBuffer)
        requires
            old(scene).wf(),
            old(self).pipelines.builds + old(scene).drawables@.len() <= u64::MAX,
            old(self).buffers.next_id + old(scene).drawables@.len() <= u64::MAX,
            old(render_pass).uniform_buffers.next_slot + old(scene).drawables@.len() <= u64::MAX,
        ensures
            ({
                let (ms, pool2, b2, alloc2, cmds) = crate::scene::spec_assemble(
                    old(scene).drawables@,
                    old(scene).materials@,
                    old(render_pass).pass,
                    old(render_pass).uniform_buffers,
                    old(self).pipelines,
                    old(self).buffers,
                );
                &&& final(scene).materials@ == ms
                &&& final(scene).drawables@ == old(scene).drawables@
                &&& final(scene).wf()
                &&& final(render_pass).pass == old(render_pass).pass
                &&& final(render_pass).uniform_buffers == pool2
                &&& final(self).pipelines == b2
                &&& final(self).buffers == alloc2
                &&& final(self).previous_frame_end == old(self).previous_frame_end
                &&& cmd.framebuffer == frame_buffer
                &&& cmd.viewport == dynamic_state.viewports
                &&& cmd.clear_color == CLEAR_COLOR_RGBA
                &&& cmd.clear_depth == CLEAR_DEPTH_BITS
                &&& cmd.commands@ == cmds
            }),
    {
        let mut cmd = CommandBuffer {
            framebuffer: frame_buffer,
            viewport: dynamic_state.viewports,
            clear_color: CLEAR_COLOR_RGBA,
            clear_depth: CLEAR_DEPTH_BITS,
            commands: Vec::new(),
        };
        scene.draw_all(self, render_pass, &mut cmd);
        cmd
    }

    /// Swap the stored previous-frame token for the already-complete
    /// sentinel, returning the real token. Happens exactly once per frame,
    /// before composing the new submission.
    pub fn take_previous_frame_end(&mut self) -> (t: FrameToken)
        ensures
            t == old(self).previous_frame_end,
            *final(self) == (GfxDevice { previous_frame_end: FrameToken::Now, ..*old(self) }),
    {
        let previous_frame = self.previous_frame_end;
        self.previous_frame_end = FrameToken::Now;
        previous_frame
    }

    /// Store `future` as the new previous-frame token, to be taken by the
    /// next frame.
    pub fn wait_to_execute(&mut self, future: FrameToken)
        ensures
            *final(self) == (GfxDevice { previous_frame_end: future, ..*old(self) }),
    {
        self.previous_frame_end = future;
    }
}

} // verus!
