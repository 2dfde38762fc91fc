//! Render targets: the swapchain, its framebuffers, the shared depth
//! attachment and the viewport state, together with the staleness flag that
//! drives recreation after a resize.

use vstd::prelude::*;

use crate::pass::RenderPass;
use crate::types::{FrameBuffers, Framebuffer};

verus! {

/// Viewport dimensions used as dynamic state when recording draws.
#[derive(Clone, Copy, PartialEq, Eq, Structural, Debug)]
pub struct Viewport {
    pub width: u32,
    pub height: u32,
}

/// The dynamic pipeline state recorded alongside draws; only the viewport
/// is used.
#[derive(Clone, Copy, PartialEq, Eq, Structural, Debug)]
pub struct DynamicState {
    pub viewports: Option<Viewport>,
}

/// The presentable-image chain of a surface: format, image count and the
/// dimensions it was created at. Replaced, never mutated, on resize.
#[derive(Clone, Copy, PartialEq, Eq, Debug)]
pub struct Swapchain {
    /// Pixel format code, as the driver reports it.
    pub format: u32,
    /// Compositing-alpha mode code the chain was created with.
    pub composite_alpha: u32,
    /// Number of presentable images.
    pub image_count: usize,
    pub dimensions: (u32, u32),
}

/// What the platform reports a surface supports. Construction fails when a
/// list here is empty.
#[derive(Clone, Debug)]
pub struct SurfaceCapabilities {
    pub min_image_count: usize,
    /// Supported pixel format codes, in the platform's preference order.
    pub supported_formats: Vec<u32>,
    /// Supported compositing-alpha mode codes.
    pub supported_composite_alpha: Vec<u32>,
}

/// The driver's response to rebuilding the swapchain at requested
/// dimensions. Any other failure is fatal and never reaches this model.
#[derive(Clone, Copy, PartialEq, Eq, Structural, Debug)]
pub enum SwapchainRebuild {
    /// The chain was rebuilt; it now holds this many images.
    Rebuilt { image_count: usize },
    /// The requested dimensions are not currently supported; this is
    /// transient (typical during interactive resize) and must be retried.
    UnsupportedDimensions,
}

/// Why render targets could not be created.
#[derive(Clone, Copy, PartialEq, Eq, Structural, Debug)]
pub enum TargetsError {
    /// The platform reported no supported format or compositing mode.
    NoCapabilities,
}

/// The render targets of one window: swapchain, per-image framebuffers with
/// their shared depth attachment, viewport state, and the staleness flag.
#[derive(PartialEq, Eq, Debug)]
pub struct RenderTargets {
    pub swapchain: Swapchain,
    /// Dimensions of the placeholder depth attachment made at construction;
    /// each framebuffer generation carries its own resized depth attachment.
    pub depth_image: (u32, u32),
    pub dynamic_state: DynamicState,
    /// One framebuffer per swapchain image; empty until the first
    /// (re)creation.
    pub framebuffers: FrameBuffers,
    /// True when the chain must be recreated before the next presentation.
    pub stale: bool,
}

/// How one recreation attempt relates the state before it, the driver's
/// response, the state after it and the returned flag. Unsupported
/// dimensions leave the state exactly as it was; success replaces the
/// swapchain, recomputes the viewport to the new dimensions, regenerates
/// one framebuffer per image against a depth attachment of the new
/// dimensions, and clears the staleness flag.
pub open spec fn recreate_post(
    pre: RenderTargets,
    dimensions: (u32, u32),
    outcome: SwapchainRebuild,
    post: RenderTargets,
    r: bool,
) -> bool {
    match outcome {
        SwapchainRebuild::UnsupportedDimensions => post == pre && !r,
        SwapchainRebuild::Rebuilt { image_count } => {
            &&& r
            &&& post.swapchain == (Swapchain {
                format: pre.swapchain.format,
                composite_alpha: pre.swapchain.composite_alpha,
                image_count,
                dimensions,
            })
            &&& post.dynamic_state == (DynamicState {
                viewports: Some(Viewport { width: dimensions.0, height: dimensions.1 }),
            })
            &&& post.framebuffers.0@ == crate::pass::spec_framebuffers(
                image_count as nat,
                dimensions,
            )
            &&& post.depth_image == pre.depth_image
            &&& !post.stale
        },
    }
}

/// Freshly created targets for a surface with these capabilities: the
/// minimum image count, the first supported format, the first supported
/// compositing mode and the current window size; no framebuffers yet, a
/// 1-by-1 placeholder depth attachment, no viewport, not stale.
pub open spec fn targets_created(
    caps: SurfaceCapabilities,
    window_dimensions: (u32, u32),
    t: RenderTargets,
) -> bool {
    &&& t.swapchain == (Swapchain {
        format: caps.supported_formats@[0],
        composite_alpha: caps.supported_composite_alpha@[0],
        image_count: caps.min_image_count,
        dimensions: window_dimensions,
    })
    &&& t.depth_image == (1u32, 1u32)
    &&& t.dynamic_state == (DynamicState { viewports: None })
    &&& t.framebuffers.0@ == Seq::<Framebuffer>::empty()
    &&& !t.stale
}

impl RenderTargets {
    /// Build the initial targets from the surface's capabilities: minimum
    /// image count, first supported format, first supported compositing
    /// mode, current window size. No framebuffers exist yet; the depth
    /// attachment is a 1-by-1 placeholder. Fails exactly when the platform
    /// reports zero capabilities.
    pub fn new(caps: &SurfaceCapabilities, window_dimensions: (u32, u32)) -> (r: Result<
        RenderTargets,
        TargetsError,
    >)
        ensures
            caps.supported_formats@.len() == 0 || caps.supported_composite_alpha@.len() == 0
                <==> r is Err,
            r matches Ok(t) ==> targets_created(*caps, window_dimensions, t),
            r matches Err(e) ==> e == TargetsError::NoCapabilities,
    {
        if caps.supported_formats.len() == 0 || caps.supported_composite_alpha.len() == 0 {
            return Err(TargetsError::NoCapabilities);
        }
        let format = caps.supported_formats[0];
        let alpha = caps.supported_composite_alpha[0];
        let swapchain = Swapchain {
            format,
            composite_alpha: alpha,
            image_count: caps.min_image_count,
            dimensions: window_dimensions,
        };
        Ok(
            RenderTargets {
                swapchain,
                depth_image: (1, 1),
                dynamic_state: DynamicState { viewports: None },
                framebuffers: FrameBuffers(Vec::new()),
                stale: false,
            },
        )
    }

    /// Recompute the viewport to match the current swapchain dimensions.
    fn recalculate_dimensions(&mut self)
        ensures
            *final(self) == (RenderTargets {
                dynamic_state: DynamicState {
                    viewports: Some(
                        Viewport {
                            width: old(self).swapchain.dimensions.0,
                            height: old(self).swapchain.dimensions.1,
                        },
                    ),
                },
                ..*old(self)
            }),
    {
        let dimensions = self.swapchain.dimensions;
        self.dynamic_state = DynamicState {
            viewports: Some(Viewport { width: dimensions.0, height: dimensions.1 }),
        };
    }

    /// Rebuild the swapchain at the window's current dimensions, taking the
    /// driver's response as `outcome`. On success the viewport matches the
    /// new dimensions, there is one framebuffer per image and every
    /// framebuffer's depth attachment has the new dimensions; when the
    /// dimensions are unsupported, nothing changes and the caller retries
    /// next tick.
    pub fn recreate_swapchain(
        &mut self,
        dimensions: (u32, u32),
        outcome: SwapchainRebuild,
        render_pass: &RenderPass,
    ) -> (r: bool)
        ensures
            recreate_post(*old(self), dimensions, outcome, *final(self), r),
    {
        let image_count = match outcome {
            SwapchainRebuild::Rebuilt { image_count } => image_count,
            SwapchainRebuild::UnsupportedDimensions => {
                return false;
            },
        };
        self.swapchain = Swapchain {
            format: self.swapchain.format,
            composite_alpha: self.swapchain.composite_alpha,
            image_count,
            dimensions,
        };
        self.recalculate_dimensions();
        self.framebuffers = render_pass.create_framebuffers(image_count, dimensions);
        self.stale = false;
        true
    }

    /// The framebuffer for a swapchain image index; an index outside the
    /// current image range is a caller bug.
    pub fn frame_buffer(&self, image_num: usize) -> (r: Framebuffer)
        requires
            image_num < self.framebuffers.0@.len(),
        ensures
            r == self.framebuffers.0@[image_num as int],
    {
        self.framebuffers.0[image_num]
    }

    /// Whether the swapchain must be recreated before presenting again.
    pub fn is_stale(&self) -> (r: bool)
        ensures
            r == self.stale,
    {
        self.stale
    }

    /// Record that the driver found the swapchain out of date.
    pub fn mark_stale(&mut self)
        ensures
            *final(self) == (RenderTargets { stale: true, ..*old(self) }),
    {
        self.stale = true;
    }
}

/// Recreation is idempotent under repeated unsupported-dimensions
/// responses: each such attempt reports failure and leaves the state
/// exactly as it was, so any chain of them round-trips to the original
/// state.
pub proof fn lemma_recreate_unsupported_idempotent(
    t0: RenderTargets,
    t1: RenderTargets,
    t2: RenderTargets,
    dims1: (u32, u32),
    dims2: (u32, u32),
    r1: bool,
    r2: bool,
)
    requires
        recreate_post(t0, dims1, SwapchainRebuild::UnsupportedDimensions, t1, r1),
        recreate_post(t1, dims2, SwapchainRebuild::UnsupportedDimensions, t2, r2),
    ensures
        t2 == t0,
        t1 == t0,
        !r1,
        !r2,
{
}

/// After a successful recreation the framebuffer count equals the swapchain
/// image count, and every framebuffer's depth attachment has the new
/// swapchain dimensions.
pub proof fn lemma_recreate_success_framebuffers(
    pre: RenderTargets,
    post: RenderTargets,
    dimensions: (u32, u32),
    image_count: usize,
    r: bool,
)
    requires
        recreate_post(pre, dimensions, SwapchainRebuild::Rebuilt { image_count }, post, r),
    ensures
        post.framebuffers.0@.len() == post.swapchain.image_count,
        forall|i: int|
            0 <= i < post.framebuffers.0@.len()
                ==> (#[trigger] post.framebuffers.0@[i]).depth_width == post.swapchain.dimensions.0
                && post.framebuffers.0@[i].depth_height == post.swapchain.dimensions.1,
{
}

} // verus!
