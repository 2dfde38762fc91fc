//! Core of a real-time renderer: swapchain and framebuffer lifecycle,
//! per-frame GPU/CPU synchronization, pipeline caching per material, and
//! assembly of per-object draw calls into one command buffer per frame.
//!
//! GPU resources are modelled as plain values (handles, dimensions, counts);
//! the driver's responses to an acquire, rebuild or flush are events that the
//! caller passes in, and every decision taken on them is verified here.

pub mod call;
pub mod delegate;
pub mod engine;
pub mod input;
pub mod material;
pub mod pass;
pub mod ringbuffer;
pub mod scene;
pub mod space;
pub mod system;
pub mod targets;
pub mod types;
pub mod vertex;

use vstd::prelude::*;

use crate::call::{cmd_verts, cmd_uses_only_frame, cmds_share_descriptor};
use crate::pass::{RenderPass, UniformPool, spec_renderpass};
use crate::scene::{Scene, spec_assemble, lemma_assemble_frame_isolation};
use crate::system::{CommandBuffer, FrameToken, GfxDevice};
use crate::targets::{
    RenderTargets, SurfaceCapabilities, SwapchainRebuild, TargetsError, recreate_post,
    targets_created,
};
use crate::vertex::BufferAllocator;

verus! {

/// The driver's response to requesting the next swapchain image. Any other
/// acquisition error is fatal and never reaches this model.
#[derive(Clone, Copy, PartialEq, Eq, Structural, Debug)]
pub enum AcquireOutcome {
    /// An image is available at this index of the current swapchain.
    Image { image_index: usize, suboptimal: bool },
    /// The swapchain no longer matches the surface; recreate before the
    /// next tick.
    OutOfDate,
}

/// The driver's response to flushing a frame's submission chain.
#[derive(Clone, Copy, PartialEq, Eq, Structural, Debug)]
pub enum FlushOutcome {
    /// The chain was queued and its fence will signal.
    Signaled,
    /// The swapchain went out of date at presentation.
    OutOfDate,
    /// Any other flush error: the frame is dropped and the loop continues.
    Other,
}

/// Why a frame was aborted.
#[derive(Clone, Copy, PartialEq, Eq, Structural, Debug)]
pub enum RenderError {
    /// The swapchain is out of date; recreate it before the next tick.
    SwapchainOutOfDate,
}

/// One frame's composed GPU work: the command buffer executes after both
/// `waits_for` and the acquisition of image `image_index` are satisfied,
/// the image is then presented, and `signals` is the fence for the whole
/// chain.
#[derive(PartialEq, Eq, Debug)]
pub struct Submission {
    pub command_buffer: CommandBuffer,
    /// The previous frame's completion token, consumed by this submission.
    pub waits_for: FrameToken,
    /// The acquired swapchain image this frame draws to and presents.
    pub image_index: usize,
    /// The completion token this frame's fence will signal.
    pub signals: FrameToken,
}

/// The graphics subsystem: device, render targets, render pass, and the
/// index of the frame recorded next.
#[derive(PartialEq, Eq, Debug)]
pub struct Gfx {
    pub render_device: GfxDevice,
    pub render_targets: RenderTargets,
    pub pass: RenderPass,
    /// Frames successfully composed so far; stamps this frame's transient
    /// allocations.
    pub frame: u64,
}

/// How one `render` call relates the states before and after it. An
/// out-of-date acquisition aborts the frame: the swapchain is marked stale,
/// the stored completion token and everything else stay untouched. With an
/// image, the per-frame allocators are reset and stamped with the current
/// frame, one command is assembled per drawable in scene order, the stored
/// token is swapped for the already-complete sentinel and rides out in the
/// submission, which presents the acquired image and will signal this
/// frame's fence.
pub open spec fn render_post(
    pre: Gfx,
    scene_pre: Scene,
    acquire: AcquireOutcome,
    post: Gfx,
    scene_post: Scene,
    r: Result<Submission, RenderError>,
) -> bool {
    match acquire {
        AcquireOutcome::OutOfDate => {
            &&& r == Err::<Submission, RenderError>(RenderError::SwapchainOutOfDate)
            &&& post.render_device == pre.render_device
            &&& post.render_targets == (RenderTargets { stale: true, ..pre.render_targets })
            &&& post.pass == pre.pass
            &&& post.frame == pre.frame
            &&& scene_post == scene_pre
        },
        AcquireOutcome::Image { image_index, suboptimal } => {
            let pool0 = UniformPool { frame: pre.frame, next_slot: 0 };
            let alloc0 = BufferAllocator { frame: pre.frame, next_id: 0 };
            let (ms, pool2, b2, alloc2, cmds) = spec_assemble(
                scene_pre.drawables@,
                scene_pre.materials@,
                pre.pass.pass,
                pool0,
                pre.render_device.pipelines,
                alloc0,
            );
            &&& r matches Ok(s) && {
                &&& s.command_buffer.framebuffer
                    == pre.render_targets.framebuffers.0@[image_index as int]
                &&& s.command_buffer.viewport == pre.render_targets.dynamic_state.viewports
                &&& s.command_buffer.clear_color == crate::system::CLEAR_COLOR_RGBA
                &&& s.command_buffer.clear_depth == crate::system::CLEAR_DEPTH_BITS
                &&& s.command_buffer.commands@ == cmds
                &&& s.waits_for == pre.render_device.previous_frame_end
                &&& s.image_index == image_index
                &&& s.signals == FrameToken::Frame(pre.frame)
            }
            &&& scene_post.materials@ == ms
            &&& scene_post.drawables@ == scene_pre.drawables@
            &&& post.render_device == (GfxDevice {
                previous_frame_end: FrameToken::Now,
                pipelines: b2,
                buffers: alloc2,
            })
            &&& post.render_targets == pre.render_targets
            &&& post.pass.pass == pre.pass.pass
            &&& post.pass.uniform_buffers == pool2
            &&& post.frame == pre.frame + 1
        },
    }
}

/// How settling a frame relates the states before and after it. Success
/// stores the submission's fence as the new previous-frame token; an
/// out-of-date presentation marks the swapchain stale; any other flush
/// error drops the frame and changes nothing.
pub open spec fn complete_post(pre: Gfx, s: Submission, outcome: FlushOutcome, post: Gfx) -> bool {
    match outcome {
        FlushOutcome::Signaled => post == (Gfx {
            render_device: GfxDevice { previous_frame_end: s.signals, ..pre.render_device },
            ..pre
        }),
        FlushOutcome::OutOfDate => post == (Gfx {
            render_targets: RenderTargets { stale: true, ..pre.render_targets },
            ..pre
        }),
        FlushOutcome::Other => post == pre,
    }
}

impl Gfx {
    /// Initialize the graphics subsystem for a surface with the given
    /// capabilities and window size. Fails exactly when the platform
    /// reports zero capabilities; such a failure is fatal to the caller.
    pub fn init(caps: &SurfaceCapabilities, window_dimensions: (u32, u32)) -> (r: Result<
        Gfx,
        TargetsError,
    >)
        ensures
            caps.supported_formats@.len() == 0 || caps.supported_composite_alpha@.len() == 0
                <==> r is Err,
            r matches Ok(g) ==> {
                &&& g.render_device == (GfxDevice {
                    previous_frame_end: FrameToken::Now,
                    pipelines: crate::material::PipelineBuilder { builds: 0 },
                    buffers: BufferAllocator { frame: 0, next_id: 0 },
                })
                &&& targets_created(*caps, window_dimensions, g.render_targets)
                &&& g.pass.pass == spec_renderpass(caps.supported_formats@[0])
                &&& g.pass.uniform_buffers == (UniformPool { frame: 0, next_slot: 0 })
                &&& g.frame == 0
            },
            r matches Err(e) ==> e == TargetsError::NoCapabilities,
    {
        let render_device = GfxDevice::new();
        let render_targets = match RenderTargets::new(caps, window_dimensions) {
            Ok(t) => t,
            Err(e) => {
                return Err(e);
            },
        };
        let pass = RenderPass::new(render_targets.swapchain.format);
        Ok(Gfx { render_device, render_targets, pass, frame: 0 })
    }

    /// Recreate the swapchain and framebuffers at the window's current
    /// dimensions; only done when necessary. `outcome` is the driver's
    /// response to the rebuild.
    pub fn recreate_swapchain(&mut self, dimensions: (u32, u32), outcome: SwapchainRebuild) -> (r:
        bool)
        ensures
            recreate_post(
                old(self).render_targets,
                dimensions,
                outcome,
                final(self).render_targets,
                r,
            ),
            final(self).render_device == old(self).render_device,
            final(self).pass == old(self).pass,
            final(self).frame == old(self).frame,
    {
        self.render_targets.recreate_swapchain(dimensions, outcome, &self.pass)
    }

    /// Render one frame of `scene`, given the driver's response to
    /// acquiring the next swapchain image. On success the composed
    /// submission is returned for the caller to execute and then settle
    /// with `complete_frame`; an out-of-date acquisition aborts the frame
    /// with an error, leaving the stored completion token unchanged.
    pub fn render(&mut self, scene: &mut Scene, acquire: AcquireOutcome) -> (r: Result<
        Submission,
        RenderError,
    >)
        requires
            acquire matches AcquireOutcome::Image { image_index, .. } ==> {
                &&& old(scene).wf()
                &&& image_index < old(self).render_targets.framebuffers.0@.len()
                &&& old(self).render_device.pipelines.builds + old(scene).drawables@.len()
                    <= u64::MAX
                &&& old(self).frame < u64::MAX
            },
        ensures
            render_post(*old(self), *old(scene), acquire, *final(self), *final(scene), r),
            old(scene).wf() ==> final(scene).wf(),
    {
        self.render_device.cleanup_finished();

        // 1. Acquire an image from the swapchain to draw to.
        let image_index = match acquire {
            AcquireOutcome::Image { image_index, suboptimal: _ } => image_index,
            AcquireOutcome::OutOfDate => {
                self.render_targets.mark_stale();
                return Err(RenderError::SwapchainOutOfDate);
            },
        };
        let frame_buffer = self.render_targets.frame_buffer(image_index);

        // 2. Build the command buffer, with this frame's fresh allocators.
        self.render_device.buffers = BufferAllocator { frame: self.frame, next_id: 0 };
        self.pass.uniform_buffers = UniformPool { frame: self.frame, next_slot: 0 };
        let dynamic_state = self.render_targets.dynamic_state;
        let command_buffer = self.render_device.build_command_buffer(
            frame_buffer,
            &dynamic_state,
            scene,
            &mut self.pass,
        );

        // 3. Compose the execution chain: wait for the previous frame and
        // the acquisition, execute, present, then signal a fence.
        let waits_for = self.render_device.take_previous_frame_end();
        let signals = FrameToken::Frame(self.frame);
        self.frame = self.frame + 1;
        Ok(Submission { command_buffer, waits_for, image_index, signals })
    }

    /// Settle a frame after its submission chain was flushed: store the new
    /// completion token on success, mark the swapchain stale on an
    /// out-of-date presentation, and drop the frame on any other error.
    pub fn complete_frame(&mut self, submission: &Submission, outcome: FlushOutcome)
        ensures
            complete_post(*old(self), *submission, outcome, *final(self)),
    {
        match outcome {
            FlushOutcome::Signaled => self.render_device.wait_to_execute(submission.signals),
            FlushOutcome::OutOfDate => self.render_targets.mark_stale(),
            FlushOutcome::Other => {},
        }
    }

    pub fn device(&self) -> (r: &GfxDevice)
        ensures
            *r == self.render_device,
    {
        &self.render_device
    }
}

/// Every command of a successfully composed frame references only
/// resources allocated during that frame, whose index the frame counter
/// then moves past — so across any run of successful frames, no frame
/// reuses another frame's transient allocations.
pub proof fn lemma_submission_frame_stamped(
    pre: Gfx,
    scene_pre: Scene,
    acquire: AcquireOutcome,
    post: Gfx,
    scene_post: Scene,
    sub: Submission,
)
    requires
        acquire is Image,
        render_post(pre, scene_pre, acquire, post, scene_post, Ok(sub)),
    ensures
        forall|j: int|
            0 <= j < sub.command_buffer.commands@.len() ==> cmd_uses_only_frame(
                #[trigger] sub.command_buffer.commands@[j],
                pre.frame,
            ),
        post.frame == pre.frame + 1,
{
    let pool0 = UniformPool { frame: pre.frame, next_slot: 0 };
    let alloc0 = BufferAllocator { frame: pre.frame, next_id: 0 };
    lemma_assemble_frame_isolation(
        scene_pre.drawables@,
        scene_pre.materials@,
        pre.pass.pass,
        pool0,
        pre.render_device.pipelines,
        alloc0,
    );
}

/// Across successive successful frames the completion token is handed off
/// linearly — each submission consumes exactly the token the previous
/// frame's settling stored, while the device holds the already-complete
/// sentinel in between — and no two frames' command buffers share any
/// transient allocation: vertex buffers and uniform suballocations carry
/// the frame that made them.
pub proof fn lemma_frame_chain(
    g0: Gfx,
    s0: Scene,
    acquire1: AcquireOutcome,
    g1: Gfx,
    s1: Scene,
    sub1: Submission,
    g2: Gfx,
    s2: Scene,
    acquire2: AcquireOutcome,
    g3: Gfx,
    s3: Scene,
    sub2: Submission,
)
    requires
        acquire1 is Image,
        acquire2 is Image,
        render_post(g0, s0, acquire1, g1, s1, Ok(sub1)),
        complete_post(g1, sub1, FlushOutcome::Signaled, g2),
        render_post(g2, s2, acquire2, g3, s3, Ok(sub2)),
    ensures
        g1.render_device.previous_frame_end == FrameToken::Now,
        sub1.waits_for == g0.render_device.previous_frame_end,
        g2.render_device.previous_frame_end == sub1.signals,
        sub2.waits_for == sub1.signals,
        g3.render_device.previous_frame_end == FrameToken::Now,
        forall|a: int, b: int|
            0 <= a < sub1.command_buffer.commands@.len() && 0 <= b
                < sub2.command_buffer.commands@.len() ==> {
                let c1 = #[trigger] sub1.command_buffer.commands@[a];
                let c2 = #[trigger] sub2.command_buffer.commands@[b];
                &&& cmd_verts(c1) != cmd_verts(c2)
                &&& !cmds_share_descriptor(c1, c2)
            },
{
    let pool1 = UniformPool { frame: g0.frame, next_slot: 0 };
    let alloc1 = BufferAllocator { frame: g0.frame, next_id: 0 };
    lemma_assemble_frame_isolation(
        s0.drawables@,
        s0.materials@,
        g0.pass.pass,
        pool1,
        g0.render_device.pipelines,
        alloc1,
    );
    let pool2 = UniformPool { frame: g2.frame, next_slot: 0 };
    let alloc2 = BufferAllocator { frame: g2.frame, next_id: 0 };
    lemma_assemble_frame_isolation(
        s2.drawables@,
        s2.materials@,
        g2.pass.pass,
        pool2,
        g2.render_device.pipelines,
        alloc2,
    );
    assert forall|a: int, b: int|
        0 <= a < sub1.command_buffer.commands@.len() && 0 <= b
            < sub2.command_buffer.commands@.len() implies {
        let c1 = #[trigger] sub1.command_buffer.commands@[a];
        let c2 = #[trigger] sub2.command_buffer.commands@[b];
        &&& cmd_verts(c1) != cmd_verts(c2)
        &&& !cmds_share_descriptor(c1, c2)
    } by {
        let (ms1, poolx1, bx1, allocx1, cmds1) = spec_assemble(
            s0.drawables@,
            s0.materials@,
            g0.pass.pass,
            pool1,
            g0.render_device.pipelines,
            alloc1,
        );
        let (ms2, poolx2, bx2, allocx2, cmds2) = spec_assemble(
            s2.drawables@,
            s2.materials@,
            g2.pass.pass,
            pool2,
            g2.render_device.pipelines,
            alloc2,
        );
        assert(sub1.command_buffer.commands@[a] == cmds1[a]);
        assert(cmd_uses_only_frame(cmds1[a], g0.frame));
        assert(sub2.command_buffer.commands@[b] == cmds2[b]);
        assert(cmd_uses_only_frame(cmds2[b], g2.frame));
        assert(g2.frame != g0.frame);
    }
}

} // verus!
