//! The engine: one tick of input sampling and rendering, and the decision
//! of what an incoming window event means for the loop.

use vstd::prelude::*;

use crate::input::{InputDevices, Inputs};
use crate::scene::Scene;
use crate::{AcquireOutcome, Gfx, RenderError, Submission, render_post};

verus! {

/// The virtual key identities the engine's decisions read.
#[derive(Clone, Copy, PartialEq, Eq, Structural, Debug)]
pub enum KeyCode {
    Q,
    Other,
}

/// A window-system event, reduced to what the engine decides on.
#[derive(Clone, Copy, PartialEq, Eq, Structural, Debug)]
pub enum EngineEvent {
    /// The user asked to close the window.
    CloseRequested,
    KeyboardInput { keycode: Option<KeyCode>, ctrl: bool },
    Resized { width: u32, height: u32 },
    /// All pending events are handled; run one tick now.
    MainEventsCleared,
    Other,
}

/// What the event loop should do after handling an event.
#[derive(Clone, Copy, PartialEq, Eq, Structural, Debug)]
pub enum EngineFlow {
    Poll,
    Exit,
}

/// Whether an event, by itself, ends the session: closing the window or
/// pressing control-Q.
pub open spec fn spec_quits(event: EngineEvent) -> bool {
    match event {
        EngineEvent::CloseRequested => true,
        EngineEvent::KeyboardInput { keycode, ctrl } => keycode == Some(KeyCode::Q) && ctrl,
        _ => false,
    }
}

/// The core loop for processing game updates and renders.
pub struct Engine {
    /// The scene of entities.
    pub scene: Scene,
    /// The graphics subsystem.
    pub gfx: Gfx,
    /// Input processing.
    pub input_devices: InputDevices,
    pub inputs: Inputs,
}

impl Engine {
    pub fn init(gfx: Gfx, scene: Scene) -> (r: Engine)
        ensures
            r.gfx == gfx,
            r.scene == scene,
    {
        let input_devices = InputDevices {  };
        let inputs = Inputs {  };
        Engine { scene, gfx, input_devices, inputs }
    }

    /// Poll for quit or resize requests. Window events are delivered
    /// through `handle_event` instead, so nothing is pending here.
    fn process_window_events(&mut self) -> (r: (bool, bool))
        ensures
            r == (false, false),
            *final(self) == *old(self),
    {
        let done = false;
        let recreate_swapchain = false;
        (done, recreate_swapchain)
    }

    /// One tick: sample inputs, then render the scene with the given
    /// acquisition outcome. Returns whether the loop should keep running,
    /// and the frame's submission when one was composed. An out-of-date
    /// acquisition is transient: the frame is skipped, the swapchain is
    /// left marked stale for recreation, and the loop keeps running.
    pub fn tick(&mut self, acquire: AcquireOutcome) -> (r: (bool, Option<Submission>))
        requires
            acquire matches AcquireOutcome::Image { image_index, .. } ==> {
                &&& old(self).scene.wf()
                &&& image_index < old(self).gfx.render_targets.framebuffers.0@.len()
                &&& old(self).gfx.render_device.pipelines.builds + old(
                    self,
                ).scene.drawables@.len() <= u64::MAX
                &&& old(self).gfx.frame < u64::MAX
            },
        ensures
            old(self).scene.wf() ==> final(self).scene.wf(),
            acquire is OutOfDate ==> r.0 && r.1 is None && render_post(
                old(self).gfx,
                old(self).scene,
                acquire,
                final(self).gfx,
                final(self).scene,
                Err(RenderError::SwapchainOutOfDate),
            ),
            acquire is Image ==> r.0 && (r.1 matches Some(s) && render_post(
                old(self).gfx,
                old(self).scene,
                acquire,
                final(self).gfx,
                final(self).scene,
                Ok(s),
            )),
    {
        // Process inputs.
        self.inputs = crate::input::tick(&mut self.input_devices, self.inputs.clone());

        // Handle window events; recreation is driven by the caller through
        // the staleness flag, so nothing is pending here.
        let (quit, _window_was_resized) = self.process_window_events();

        // Render all graphics objects.
        let result = self.gfx.render(&mut self.scene, acquire);

        match result {
            Ok(submission) => (!quit, Some(submission)),
            // A dropped frame is not a reason to stop: the swapchain is
            // already marked stale and is recreated before the next tick.
            Err(_) => (!quit, None),
        }
    }

    /// Decide what an event means: quit requests end the loop, the
    /// events-cleared notice runs one tick, everything else keeps polling.
    /// Only quit events end the session; a tick whose frame was dropped
    /// keeps polling, since its condition is transient.
    pub fn handle_event(&mut self, event: EngineEvent, acquire: AcquireOutcome) -> (r: (
        EngineFlow,
        Option<Submission>,
    ))
        requires
            event is MainEventsCleared ==> (acquire matches AcquireOutcome::Image {
                image_index,
                ..
            } ==> {
                &&& old(self).scene.wf()
                &&& image_index < old(self).gfx.render_targets.framebuffers.0@.len()
                &&& old(self).gfx.render_device.pipelines.builds + old(
                    self,
                ).scene.drawables@.len() <= u64::MAX
                &&& old(self).gfx.frame < u64::MAX
            }),
        ensures
            spec_quits(event) ==> r == (EngineFlow::Exit, None::<Submission>) && *final(self)
                == *old(self),
            !spec_quits(event) && !(event is MainEventsCleared) ==> r == (
                EngineFlow::Poll,
                None::<Submission>,
            ) && *final(self) == *old(self),
            event is MainEventsCleared ==> {
                &&& (old(self).scene.wf() ==> final(self).scene.wf())
                &&& (acquire is OutOfDate ==> r == (EngineFlow::Poll, None::<Submission>)
                    && render_post(
                    old(self).gfx,
                    old(self).scene,
                    acquire,
                    final(self).gfx,
                    final(self).scene,
                    Err(RenderError::SwapchainOutOfDate),
                ))
                &&& (acquire is Image ==> r.0 == EngineFlow::Poll && (r.1 matches Some(s)
                    && render_post(
                    old(self).gfx,
                    old(self).scene,
                    acquire,
                    final(self).gfx,
                    final(self).scene,
                    Ok(s),
                )))
            },
    {
        match event {
            EngineEvent::CloseRequested => (EngineFlow::Exit, None),
            EngineEvent::KeyboardInput { keycode, ctrl } => {
                // Press control-Q to quit.
                let is_q = match keycode {
                    Some(KeyCode::Q) => true,
                    _ => false,
                };
                if is_q && ctrl {
                    (EngineFlow::Exit, None)
                } else {
                    (EngineFlow::Poll, None)
                }
            },
            EngineEvent::MainEventsCleared => {
                let (keep_running, submission) = self.tick(acquire);
                if keep_running {
                    (EngineFlow::Poll, submission)
                } else {
                    (EngineFlow::Exit, submission)
                }
            },
            _ => (EngineFlow::Poll, None),
        }
    }
}

} // verus!
