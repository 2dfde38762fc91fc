//! Shared plain-data types of the renderer model.

use vstd::prelude::*;

verus! {

/// A span of time handed to per-tick updates.
#[derive(Clone, Copy, PartialEq, Eq, Structural, Debug)]
pub struct TimeDelta {
    pub nanos: u64,
}

/// Whether an event-loop step should return to the caller or keep polling.
#[derive(Clone, Copy, PartialEq, Eq, Structural, Debug)]
pub enum LoopControl {
    Return,
    Continue,
}

/// One framebuffer: a swapchain image's color attachment paired with the
/// shared depth attachment of its generation.
#[derive(Clone, Copy, PartialEq, Eq, Structural, Debug)]
pub struct Framebuffer {
    /// Index of the swapchain image whose color attachment is bound.
    pub image_index: usize,
    /// Dimensions of the color attachment.
    pub width: u32,
    pub height: u32,
    /// Dimensions of the shared depth attachment.
    pub depth_width: u32,
    pub depth_height: u32,
}

/// The framebuffers of one swapchain generation, one per swapchain image.
#[derive(PartialEq, Eq, Debug)]
pub struct FrameBuffers(pub Vec<Framebuffer>);

/// A scene object that both draws and advances per tick.
pub trait DrawAndTick: crate::call::Drawable + crate::delegate::Tickable {

}

impl<T: crate::call::Drawable + crate::delegate::Tickable> DrawAndTick for T {

}

} // verus!
