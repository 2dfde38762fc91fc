use gfx_core::call::{DrawCmd, DrawSpec, Drawable};
use gfx_core::material::{Material, PipelineBuilder, Shader};
use gfx_core::pass::{RenderPass, UniformData, create_renderpass};
use gfx_core::scene::Scene;
use gfx_core::system::{CLEAR_COLOR_RGBA, CLEAR_DEPTH_BITS, CommandBuffer, FrameToken};
use gfx_core::targets::{
    RenderTargets, SurfaceCapabilities, SwapchainRebuild, TargetsError, Viewport,
};
use gfx_core::types::Framebuffer;
use gfx_core::vertex::BufferAllocator;
use gfx_core::{AcquireOutcome, FlushOutcome, Gfx, RenderError};

fn caps() -> SurfaceCapabilities {
    SurfaceCapabilities {
        min_image_count: 3,
        supported_formats: vec![50],
        supported_composite_alpha: vec![1],
    }
}

fn shaded_material() -> Material {
    Material::new(Shader { id: 1 }, Shader { id: 2 })
}

fn uniform(seed: u32) -> UniformData {
    UniformData { world: [seed; 16] }
}

fn ready_gfx() -> Gfx {
    let mut gfx = Gfx::init(&caps(), (320, 240)).unwrap();
    assert!(gfx.recreate_swapchain((320, 240), SwapchainRebuild::Rebuilt { image_count: 3 }));
    gfx
}

#[test]
fn init_fails_without_capabilities() {
    let empty = SurfaceCapabilities {
        min_image_count: 2,
        supported_formats: vec![],
        supported_composite_alpha: vec![1],
    };
    assert_eq!(Gfx::init(&empty, (320, 240)).unwrap_err(), TargetsError::NoCapabilities);
    assert_eq!(
        RenderTargets::new(&empty, (320, 240)).unwrap_err(),
        TargetsError::NoCapabilities
    );
}

#[test]
fn init_uses_first_reported_capabilities() {
    let gfx = Gfx::init(&caps(), (320, 240)).unwrap();
    assert_eq!(gfx.render_targets.swapchain.format, 50);
    assert_eq!(gfx.render_targets.swapchain.composite_alpha, 1);
    assert_eq!(gfx.render_targets.swapchain.image_count, 3);
    assert_eq!(gfx.render_targets.swapchain.dimensions, (320, 240));
    assert_eq!(gfx.pass.pass, create_renderpass(50));
    assert_eq!(gfx.frame, 0);
}

// Recreation to (800, 600): the framebuffer list has one entry per image
// and the viewport matches the new dimensions.
#[test]
fn recreate_to_800_by_600() {
    let mut gfx = ready_gfx();
    assert!(gfx.recreate_swapchain((800, 600), SwapchainRebuild::Rebuilt { image_count: 3 }));
    assert_eq!(gfx.render_targets.framebuffers.0.len(), 3);
    assert_eq!(
        gfx.render_targets.dynamic_state.viewports,
        Some(Viewport { width: 800, height: 600 })
    );
    for (i, fb) in gfx.render_targets.framebuffers.0.iter().enumerate() {
        assert_eq!(fb.image_index, i);
        assert_eq!((fb.width, fb.height), (800, 600));
        assert_eq!((fb.depth_width, fb.depth_height), (800, 600));
    }
    assert_eq!(gfx.render_targets.frame_buffer(1).image_index, 1);
}

// Unsupported dimensions leave the state exactly as it was, however often
// the attempt is repeated.
#[test]
fn recreate_unsupported_changes_nothing() {
    let mut attempted = RenderTargets::new(&caps(), (320, 240)).unwrap();
    let untouched = RenderTargets::new(&caps(), (320, 240)).unwrap();
    let pass = RenderPass::new(50);
    assert!(!attempted.recreate_swapchain(
        (800, 600),
        SwapchainRebuild::UnsupportedDimensions,
        &pass
    ));
    assert!(!attempted.recreate_swapchain(
        (123, 456),
        SwapchainRebuild::UnsupportedDimensions,
        &pass
    ));
    assert!(attempted == untouched);
}

// An out-of-date acquisition aborts the frame and leaves the stored
// completion token unchanged.
#[test]
fn render_out_of_date_aborts_frame() {
    let mut gfx = ready_gfx();
    let mut scene = Scene::new(vec![shaded_material()], vec![]);
    let token_before = gfx.device().previous_frame_end;
    let result = gfx.render(&mut scene, AcquireOutcome::OutOfDate);
    assert_eq!(result.unwrap_err(), RenderError::SwapchainOutOfDate);
    assert_eq!(gfx.device().previous_frame_end, token_before);
    assert!(gfx.render_targets.is_stale());
    assert_eq!(gfx.frame, 0);
}

// An empty scene renders a pass with zero draw commands without error.
#[test]
fn empty_scene_records_no_commands() {
    let mut gfx = ready_gfx();
    let mut scene = Scene::new(vec![], vec![]);
    let submission = gfx
        .render(&mut scene, AcquireOutcome::Image { image_index: 0, suboptimal: false })
        .unwrap();
    assert_eq!(submission.command_buffer.commands.len(), 0);
    assert_eq!(submission.image_index, 0);
    // The pass clears to opaque black and depth one.
    assert_eq!(submission.command_buffer.clear_color, CLEAR_COLOR_RGBA);
    assert_eq!(submission.command_buffer.clear_depth, CLEAR_DEPTH_BITS);
    assert_eq!(CLEAR_DEPTH_BITS, 1.0f32.to_bits());
}

// Assembly without descriptor data records the bare command shape; with
// descriptor data it records the descriptor-carrying shape.
#[test]
fn draw_call_shapes_follow_uniform_data() {
    let mut materials = vec![shaded_material()];
    let mut pass = RenderPass::new(50);
    let mut builder = PipelineBuilder { builds: 0 };
    let mut alloc = BufferAllocator { frame: 0, next_id: 0 };
    let mut cmd = CommandBuffer {
        framebuffer: Framebuffer {
            image_index: 0,
            width: 320,
            height: 240,
            depth_width: 320,
            depth_height: 240,
        },
        viewport: None,
        clear_color: CLEAR_COLOR_RGBA,
        clear_depth: CLEAR_DEPTH_BITS,
        commands: vec![],
    };

    let bare = DrawSpec { material: 0, vertex_count: 3, uniform: None };
    let call = bare.draw_call(&mut materials, &mut pass, &mut builder, &mut alloc);
    assert!(call.descriptors.is_none());
    gfx_core::call::Call::draw(&call, &mut cmd);

    let bound = DrawSpec { material: 0, vertex_count: 3, uniform: Some(uniform(7)) };
    let call = bound.draw_call(&mut materials, &mut pass, &mut builder, &mut alloc);
    assert!(call.descriptors.is_some());
    gfx_core::call::Call::draw(&call, &mut cmd);

    assert_eq!(cmd.commands.len(), 2);
    assert!(matches!(cmd.commands[0], DrawCmd::NoDescriptors { .. }));
    assert!(matches!(cmd.commands[1], DrawCmd::WithDescriptors { .. }));
}

// Two drawables sharing one material: exactly one pipeline build, two
// calls, each with its own uniform suballocation.
#[test]
fn shared_material_builds_one_pipeline() {
    let mut gfx = ready_gfx();
    let mut scene = Scene::new(
        vec![shaded_material()],
        vec![
            DrawSpec { material: 0, vertex_count: 36, uniform: Some(uniform(1)) },
            DrawSpec { material: 0, vertex_count: 12, uniform: Some(uniform(2)) },
        ],
    );
    let submission = gfx
        .render(&mut scene, AcquireOutcome::Image { image_index: 0, suboptimal: false })
        .unwrap();

    assert_eq!(gfx.device().pipelines.builds, 1);
    assert_eq!(submission.command_buffer.commands.len(), 2);
    match (&submission.command_buffer.commands[0], &submission.command_buffer.commands[1]) {
        (
            DrawCmd::WithDescriptors { pipeline: p1, verts: v1, descriptors: d1 },
            DrawCmd::WithDescriptors { pipeline: p2, verts: v2, descriptors: d2 },
        ) => {
            assert_eq!(p1, p2);
            assert_ne!(d1.buffer.slot, d2.buffer.slot);
            assert_ne!(v1.id, v2.id);
            assert_eq!(v1.len, 36);
            assert_eq!(v2.len, 12);
        },
        _ => panic!("expected two descriptor-carrying commands"),
    }

    // The material now caches the pipeline; a later frame builds nothing.
    let submission = gfx
        .render(&mut scene, AcquireOutcome::Image { image_index: 1, suboptimal: false })
        .unwrap();
    assert_eq!(gfx.device().pipelines.builds, 1);
    assert_eq!(submission.command_buffer.commands.len(), 2);
}

// The material cache returns the identical pipeline on later calls, even
// against a different pass description, and no further build occurs.
#[test]
fn pipeline_cache_returns_identical_pipeline() {
    let mut material = shaded_material();
    let mut builder = PipelineBuilder { builds: 0 };
    let first = material.pipeline(create_renderpass(50), &mut builder);
    let second = material.pipeline(create_renderpass(99), &mut builder);
    let third = material.pipeline(create_renderpass(50), &mut builder);
    assert_eq!(first, second);
    assert_eq!(first, third);
    assert_eq!(builder.builds, 1);
    assert_eq!(first.pass, create_renderpass(50));
}

// Across successive successful frames the completion token is handed off
// linearly, and no allocation is shared between frames.
#[test]
fn frame_tokens_hand_off_linearly() {
    let mut gfx = ready_gfx();
    let mut scene = Scene::new(
        vec![shaded_material()],
        vec![DrawSpec { material: 0, vertex_count: 3, uniform: Some(uniform(3)) }],
    );

    assert_eq!(gfx.device().previous_frame_end, FrameToken::Now);
    let first = gfx
        .render(&mut scene, AcquireOutcome::Image { image_index: 0, suboptimal: false })
        .unwrap();
    assert_eq!(first.waits_for, FrameToken::Now);
    assert_eq!(first.signals, FrameToken::Frame(0));
    assert_eq!(gfx.device().previous_frame_end, FrameToken::Now);

    gfx.complete_frame(&first, FlushOutcome::Signaled);
    assert_eq!(gfx.device().previous_frame_end, FrameToken::Frame(0));

    let second = gfx
        .render(&mut scene, AcquireOutcome::Image { image_index: 1, suboptimal: false })
        .unwrap();
    assert_eq!(second.waits_for, FrameToken::Frame(0));
    assert_eq!(second.signals, FrameToken::Frame(1));

    // Frame stamps keep the two frames' transient allocations apart.
    match (&first.command_buffer.commands[0], &second.command_buffer.commands[0]) {
        (
            DrawCmd::WithDescriptors { verts: v1, descriptors: d1, .. },
            DrawCmd::WithDescriptors { verts: v2, descriptors: d2, .. },
        ) => {
            assert_eq!(v1.frame, 0);
            assert_eq!(v2.frame, 1);
            assert_ne!(v1, v2);
            assert_eq!(d1.buffer.frame, 0);
            assert_eq!(d2.buffer.frame, 1);
        },
        _ => panic!("expected descriptor-carrying commands"),
    }
}

// A stale swapchain becomes usable again after a successful recreation.
#[test]
fn recreation_clears_staleness() {
    let mut gfx = ready_gfx();
    let mut scene = Scene::new(vec![], vec![]);
    let _ = gfx.render(&mut scene, AcquireOutcome::OutOfDate);
    assert!(gfx.render_targets.is_stale());
    assert!(gfx.recreate_swapchain((320, 240), SwapchainRebuild::Rebuilt { image_count: 3 }));
    assert!(!gfx.render_targets.is_stale());
}

// An out-of-date presentation marks the swapchain stale; any other flush
// error drops the frame without touching the stored token.
#[test]
fn settle_outcomes() {
    let mut gfx = ready_gfx();
    let mut scene = Scene::new(vec![], vec![]);
    let submission = gfx
        .render(&mut scene, AcquireOutcome::Image { image_index: 0, suboptimal: false })
        .unwrap();
    gfx.complete_frame(&submission, FlushOutcome::Other);
    assert_eq!(gfx.device().previous_frame_end, FrameToken::Now);
    assert!(!gfx.render_targets.is_stale());

    gfx.complete_frame(&submission, FlushOutcome::OutOfDate);
    assert!(gfx.render_targets.is_stale());
    assert_eq!(gfx.device().previous_frame_end, FrameToken::Now);
}
