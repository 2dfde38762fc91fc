use gfx_core::delegate::{Tickable, Ticklist};
use gfx_core::engine::{Engine, EngineEvent, EngineFlow, KeyCode};
use gfx_core::input::{Input, InputData, InputDevices, Inputs, KeyState};
use gfx_core::scene::Scene;
use gfx_core::targets::{SurfaceCapabilities, SwapchainRebuild};
use gfx_core::types::TimeDelta;
use gfx_core::{AcquireOutcome, Gfx};

fn ready_engine() -> Engine {
    let caps = SurfaceCapabilities {
        min_image_count: 2,
        supported_formats: vec![50],
        supported_composite_alpha: vec![1],
    };
    let mut gfx = Gfx::init(&caps, (320, 240)).unwrap();
    assert!(gfx.recreate_swapchain((320, 240), SwapchainRebuild::Rebuilt { image_count: 2 }));
    Engine::init(gfx, Scene::new(vec![], vec![]))
}

#[test]
fn close_request_exits() {
    let mut engine = ready_engine();
    let (flow, submission) = engine.handle_event(
        EngineEvent::CloseRequested,
        AcquireOutcome::OutOfDate,
    );
    assert_eq!(flow, EngineFlow::Exit);
    assert!(submission.is_none());
}

#[test]
fn control_q_exits() {
    let mut engine = ready_engine();
    let (flow, _) = engine.handle_event(
        EngineEvent::KeyboardInput { keycode: Some(KeyCode::Q), ctrl: true },
        AcquireOutcome::OutOfDate,
    );
    assert_eq!(flow, EngineFlow::Exit);

    let (flow, _) = engine.handle_event(
        EngineEvent::KeyboardInput { keycode: Some(KeyCode::Q), ctrl: false },
        AcquireOutcome::OutOfDate,
    );
    assert_eq!(flow, EngineFlow::Poll);

    let (flow, _) = engine.handle_event(
        EngineEvent::KeyboardInput { keycode: Some(KeyCode::Other), ctrl: true },
        AcquireOutcome::OutOfDate,
    );
    assert_eq!(flow, EngineFlow::Poll);
}

#[test]
fn events_cleared_runs_a_tick() {
    let mut engine = ready_engine();
    let (flow, submission) = engine.handle_event(
        EngineEvent::MainEventsCleared,
        AcquireOutcome::Image { image_index: 0, suboptimal: false },
    );
    assert_eq!(flow, EngineFlow::Poll);
    assert!(submission.is_some());

    // An out-of-date acquisition is transient: the frame is dropped and
    // the swapchain marked stale, but the loop keeps polling.
    let (flow, submission) = engine.handle_event(
        EngineEvent::MainEventsCleared,
        AcquireOutcome::OutOfDate,
    );
    assert_eq!(flow, EngineFlow::Poll);
    assert!(submission.is_none());
    assert!(engine.gfx.render_targets.is_stale());

    // After the caller recreates the swapchain, the next tick renders
    // again.
    assert!(
        engine
            .gfx
            .recreate_swapchain((320, 240), SwapchainRebuild::Rebuilt { image_count: 2 })
    );
    let (flow, submission) = engine.handle_event(
        EngineEvent::MainEventsCleared,
        AcquireOutcome::Image { image_index: 1, suboptimal: false },
    );
    assert_eq!(flow, EngineFlow::Poll);
    assert!(submission.is_some());
}

#[test]
fn resize_keeps_polling() {
    let mut engine = ready_engine();
    let (flow, submission) = engine.handle_event(
        EngineEvent::Resized { width: 800, height: 600 },
        AcquireOutcome::OutOfDate,
    );
    assert_eq!(flow, EngineFlow::Poll);
    assert!(submission.is_none());
}

#[test]
fn bind_pressed_reads_active_frame() {
    let mut pressed = InputData::new();
    pressed.set_key(30, KeyState::Pressed);
    let mut input = Input::new(vec![pressed], 0);
    input.bind(1, 30);
    assert!(input.bind_pressed(&1));
    // A bind nobody configured is never pressed.
    assert!(!input.bind_pressed(&2));

    // The same key merely held in the active frame does not count.
    let mut held = InputData::new();
    held.set_key(30, KeyState::Held);
    let mut input = Input::new(vec![held], 0);
    input.bind(1, 30);
    assert!(!input.bind_pressed(&1));
}

#[test]
fn input_tick_produces_next_snapshot() {
    let mut devices = InputDevices {};
    let _next: Inputs = gfx_core::input::tick(&mut devices, Inputs {});
}

struct Counter {
    n: u64,
}

impl Tickable for Counter {
    fn tick(&mut self, _dt: TimeDelta) {
        self.n += 1;
    }
}

#[test]
fn tick_all_ticks_every_entry_once() {
    let mut list = Ticklist::from(Counter { n: 0 });
    list.add(Counter { n: 10 });
    list.tick_all(TimeDelta { nanos: 16_000_000 });
    assert_eq!(list.ts[0].n, 1);
    assert_eq!(list.ts[1].n, 11);
    list.tick_all(TimeDelta { nanos: 16_000_000 });
    assert_eq!(list.ts[0].n, 2);
    assert_eq!(list.ts[1].n, 12);
}
