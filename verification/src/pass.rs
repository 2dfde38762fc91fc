//! The fixed render pass description and the pooled uniform-buffer
//! allocator that per-draw uniform data is suballocated from.

use vstd::prelude::*;

verus! {

/// How an attachment's contents are treated when the pass begins.
#[derive(Clone, Copy, PartialEq, Eq, Structural, Debug)]
pub enum LoadOp {
    Clear,
    DontCare,
}

/// How an attachment's contents are treated when the pass ends.
#[derive(Clone, Copy, PartialEq, Eq, Structural, Debug)]
pub enum StoreOp {
    Store,
    DontCare,
}

/// One attachment slot of the pass description.
#[derive(Clone, Copy, PartialEq, Eq, Structural, Debug)]
pub struct AttachmentDesc {
    pub load: LoadOp,
    pub store: StoreOp,
    /// Pixel format code, as the driver reports it.
    pub format: u32,
    pub samples: u32,
}

/// A single-subpass description with one color and one depth attachment.
#[derive(Clone, Copy, PartialEq, Eq, Structural, Debug)]
pub struct PassDesc {
    pub color: AttachmentDesc,
    pub depth: AttachmentDesc,
}

/// Format code of a 16-bit unsigned-normalized depth image.
pub const FORMAT_D16_UNORM: u32 = 124;

/// The fixed two-attachment description: color is cleared then stored,
/// depth is cleared then discarded, both single-sampled.
pub open spec fn spec_renderpass(color_format: u32) -> PassDesc {
    PassDesc {
        color: AttachmentDesc {
            load: LoadOp::Clear,
            store: StoreOp::Store,
            format: color_format,
            samples: 1,
        },
        depth: AttachmentDesc {
            load: LoadOp::Clear,
            store: StoreOp::DontCare,
            format: FORMAT_D16_UNORM,
            samples: 1,
        },
    }
}

pub fn create_renderpass(color_format: u32) -> (p: PassDesc)
    ensures
        p == spec_renderpass(color_format),
{
    PassDesc {
        color: AttachmentDesc {
            load: LoadOp::Clear,
            store: StoreOp::Store,
            format: color_format,
            samples: 1,
        },
        depth: AttachmentDesc {
            load: LoadOp::Clear,
            store: StoreOp::DontCare,
            format: FORMAT_D16_UNORM,
            samples: 1,
        },
    }
}

/// Per-object uniform data: the entries of a world transform, carried as
/// raw bit patterns. The renderer moves them; only shaders read them.
#[derive(Clone, Copy, PartialEq, Eq, Debug)]
pub struct UniformData {
    pub world: [u32; 16],
}

/// A suballocation of the pooled uniform buffer, identified by the frame it
/// was made in and a slot that is fresh within that frame.
#[derive(Clone, Copy, PartialEq, Eq, Debug)]
pub struct SubBuffer {
    pub frame: u64,
    pub slot: u64,
    /// The uniform data written into the suballocation.
    pub data: UniformData,
}

/// Pooled uniform-buffer allocator; reset at the start of every frame so
/// that no two frames share a suballocation.
#[derive(Clone, Copy, PartialEq, Eq, Structural, Debug)]
pub struct UniformPool {
    /// The frame suballocations are stamped with.
    pub frame: u64,
    /// Next free slot within the frame.
    pub next_slot: u64,
}

impl UniformPool {
    /// Allocate a fresh, non-aliased suballocation holding `data`.
    pub fn next(&mut self, data: UniformData) -> (r: SubBuffer)
        requires
            old(self).next_slot < u64::MAX,
        ensures
            r == (SubBuffer { frame: old(self).frame, slot: old(self).next_slot, data }),
            *final(self) == (UniformPool {
                frame: old(self).frame,
                next_slot: (old(self).next_slot + 1) as u64,
            }),
    {
        let slot = self.next_slot;
        self.next_slot = self.next_slot + 1;
        SubBuffer { frame: self.frame, slot, data }
    }
}

/// The render pass: the fixed pass description plus the uniform pool that
/// draw calls suballocate from. Immutable description after construction,
/// shared by every framebuffer and pipeline of its generation.
#[derive(Clone, Copy, PartialEq, Eq, Structural, Debug)]
pub struct RenderPass {
    pub pass: PassDesc,
    /// Pooled allocator for per-draw uniform data.
    pub uniform_buffers: UniformPool,
}

/// The framebuffers generated for `image_count` swapchain images of the
/// given dimensions: one per image, all sharing one depth attachment whose
/// dimensions equal the images'.
pub open spec fn spec_framebuffers(image_count: nat, dimensions: (u32, u32)) -> Seq<
    crate::types::Framebuffer,
> {
    Seq::new(
        image_count,
        |i: int|
            crate::types::Framebuffer {
                image_index: i as usize,
                width: dimensions.0,
                height: dimensions.1,
                depth_width: dimensions.0,
                depth_height: dimensions.1,
            },
    )
}

impl RenderPass {
    /// Create the default pass for images of the given color format, with an
    /// empty uniform pool.
    pub fn new(color_format: u32) -> (r: RenderPass)
        ensures
            r.pass == spec_renderpass(color_format),
            r.uniform_buffers == (UniformPool { frame: 0, next_slot: 0 }),
    {
        let pass = create_renderpass(color_format);
        let uniform_buffers = UniformPool { frame: 0, next_slot: 0 };
        RenderPass { pass, uniform_buffers }
    }

    /// Generate the framebuffers for one swapchain generation: one per image,
    /// each pairing that image's color attachment with a single depth
    /// attachment shared across the generation and sized to the images.
    pub fn create_framebuffers(&self, image_count: usize, dimensions: (u32, u32)) -> (r:
        crate::types::FrameBuffers)
        ensures
            r.0@ == spec_framebuffers(image_count as nat, dimensions),
    {
        let mut buffers: Vec<crate::types::Framebuffer> = Vec::new();
        let mut i: usize = 0;
        while i < image_count
            invariant
                i <= image_count,
                buffers@ == spec_framebuffers(i as nat, dimensions),
            decreases image_count - i,
        {
            buffers.push(
                crate::types::Framebuffer {
                    image_index: i,
                    width: dimensions.0,
                    height: dimensions.1,
                    depth_width: dimensions.0,
                    depth_height: dimensions.1,
                },
            );
            i = i + 1;
            proof {
                assert(buffers@ =~= spec_framebuffers(i as nat, dimensions));
            }
        }
        crate::types::FrameBuffers(buffers)
    }

    pub fn pass(&self) -> (r: PassDesc)
        ensures
            r == self.pass,
    {
        self.pass
    }
}

} // verus!
