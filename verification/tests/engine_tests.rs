use deferred_engine::engine::{DrawBegin, Engine};
use deferred_engine::frame::{AcquireDecision, AcquireOutcome, PresentOutcome};
use deferred_engine::mesh::Mesh;
use deferred_engine::swapchain::{
    Extent2D, SurfaceCapabilities, SurfaceFormat, SwapchainSupportInfo,
};
use deferred_engine::sync::FrameSyncObjects;

fn engine_support(min_count: u32, max_count: u32) -> SwapchainSupportInfo {
    SwapchainSupportInfo {
        capabilities: SurfaceCapabilities {
            min_image_count: min_count,
            max_image_count: max_count,
            current_extent: Extent2D { width: u32::MAX, height: u32::MAX },
            min_image_extent: Extent2D { width: 1, height: 1 },
            max_image_extent: Extent2D { width: 4096, height: 4096 },
            current_transform: 1,
        },
        available_formats: vec![SurfaceFormat { format: 50, color_space: 0 }],
        available_present_modes: vec![2],
    }
}

/// Runs one successful draw through the whole protocol and returns the
/// slot it used.
fn run_one_draw(engine: &mut Engine, image_index: u32) -> usize {
    let slot = match engine.begin_draw() {
        DrawBegin::Wait { slot } => slot,
        DrawBegin::Skip => panic!("draw unexpectedly skipped"),
    };
    match engine.finish_acquire(AcquireOutcome::Image { image_index, suboptimal: false }) {
        AcquireDecision::Proceed { image_index: i } => assert_eq!(i, image_index),
        AcquireDecision::ResizeNeeded => panic!("acquire unexpectedly stale"),
    }
    engine.reset_slot_fence();
    engine.finish_submit();
    let resize_needed = engine.finish_present(PresentOutcome::Presented { suboptimal: false });
    assert!(!resize_needed);
    slot
}

#[test]
fn slot_rotation_is_modulo_counter() {
    // Two images requested over a minimum of one, so two slots.
    let support = engine_support(1, 0);
    let mut engine = Engine::new(&support, [800, 600], 0, 0);
    assert_eq!(engine.config().image_count, 2);
    let mut used = Vec::new();
    for k in 0..5u32 {
        used.push(run_one_draw(&mut engine, k % 2));
    }
    assert_eq!(used, vec![0, 1, 0, 1, 0]);
}

#[test]
fn slot_rotation_with_three_slots() {
    let support = engine_support(2, 0);
    let mut engine = Engine::new(&support, [800, 600], 0, 0);
    assert_eq!(engine.config().image_count, 3);
    let mut used = Vec::new();
    for k in 0..7u32 {
        used.push(run_one_draw(&mut engine, k % 3));
    }
    assert_eq!(used, vec![0, 1, 2, 0, 1, 2, 0]);
}

#[test]
fn next_frame_wraps_around() {
    let sync = FrameSyncObjects::new(3);
    assert_eq!(sync.next_frame(0), 1);
    assert_eq!(sync.next_frame(1), 2);
    assert_eq!(sync.next_frame(2), 0);
    let single = FrameSyncObjects::new(1);
    assert_eq!(single.next_frame(0), 0);
}

#[test]
fn zero_width_window_skips_draw() {
    let support = engine_support(1, 0);
    let mut engine = Engine::new(&support, [0, 600], 0, 0);
    assert_eq!(engine.begin_draw(), DrawBegin::Skip);
    // Nothing was acquired or submitted: the same slot serves the next
    // draw, and no recreation is owed.
    assert!(!engine.needs_recreate());
    assert_eq!(engine.frame.current_frame(), 0);
}

#[test]
fn zero_height_window_skips_draw() {
    let support = engine_support(1, 0);
    let mut engine = Engine::new(&support, [800, 0], 0, 0);
    assert_eq!(engine.begin_draw(), DrawBegin::Skip);
    assert!(!engine.needs_recreate());
    assert_eq!(engine.frame.current_frame(), 0);
}

#[test]
fn draw_resumes_after_resize_to_nonzero() {
    let support = engine_support(1, 0);
    let mut engine = Engine::new(&support, [0, 0], 0, 0);
    assert_eq!(engine.begin_draw(), DrawBegin::Skip);
    engine.notify_resize([640, 480]);
    engine.recreate(&support);
    let slot = run_one_draw(&mut engine, 0);
    assert_eq!(slot, 0);
}

#[test]
fn out_of_date_acquire_signals_resize() {
    let support = engine_support(1, 0);
    let mut engine = Engine::new(&support, [800, 600], 0, 0);

    match engine.begin_draw() {
        DrawBegin::Wait { slot } => assert_eq!(slot, 0),
        DrawBegin::Skip => panic!("draw unexpectedly skipped"),
    }
    // The driver reports a stale swapchain: a resize signal, not an error.
    let decision = engine.finish_acquire(AcquireOutcome::OutOfDate);
    assert_eq!(decision, AcquireDecision::ResizeNeeded);
    assert!(engine.needs_recreate());
    // The slot advanced even though the draw was cut short.
    assert_eq!(engine.frame.current_frame(), 1);

    // After recreation the next draw succeeds.
    engine.recreate(&support);
    assert!(!engine.needs_recreate());
    let slot = run_one_draw(&mut engine, 0);
    assert_eq!(slot, 1);
}

#[test]
fn suboptimal_present_flags_recreation() {
    let support = engine_support(1, 0);
    let mut engine = Engine::new(&support, [800, 600], 0, 0);
    match engine.begin_draw() {
        DrawBegin::Wait { .. } => {}
        DrawBegin::Skip => panic!("draw unexpectedly skipped"),
    }
    engine.finish_acquire(AcquireOutcome::Image { image_index: 0, suboptimal: false });
    engine.reset_slot_fence();
    engine.finish_submit();
    let resize_needed = engine.finish_present(PresentOutcome::OutOfDate);
    assert!(resize_needed);
    assert!(engine.needs_recreate());
}

#[test]
fn recreation_twice_equals_once() {
    let support = engine_support(1, 3);
    let mut engine = Engine::new(&support, [800, 600], 0, 0);
    engine.notify_resize([1200, 900]);
    engine.recreate(&support);
    let first = engine.config();
    engine.recreate(&support);
    let second = engine.config();
    assert_eq!(second, first);
    assert_eq!(second.extent, Extent2D { width: 1200, height: 900 });
    assert_eq!(second.image_count, 2);
    assert!(!engine.needs_recreate());
}

#[test]
fn recreation_picks_up_new_window_size() {
    let support = engine_support(1, 0);
    let mut engine = Engine::new(&support, [800, 600], 0, 0);
    assert_eq!(engine.config().extent, Extent2D { width: 800, height: 600 });
    engine.notify_resize([1024, 768]);
    assert!(engine.needs_recreate());
    engine.recreate(&support);
    assert_eq!(engine.config().extent, Extent2D { width: 1024, height: 768 });
}

#[test]
fn update_meshes_builds_draw_list() {
    let support = engine_support(1, 0);
    let mut engine = Engine::new(&support, [800, 600], 0, 0);
    let meshes = vec![Mesh::new(11, 12, 36), Mesh::new(21, 22, 6)];
    engine.update_meshes(&meshes);
    assert_eq!(engine.draw_list.len(), 2);
    assert_eq!(engine.draw_list[0].vertex_buffer, 11);
    assert_eq!(engine.draw_list[0].index_buffer, 12);
    assert_eq!(engine.draw_list[0].vertex_offset, 0);
    assert_eq!(engine.draw_list[0].index_count, 36);
    assert_eq!(engine.draw_list[1].vertex_buffer, 21);
    assert_eq!(engine.draw_list[1].index_count, 6);
}

#[test]
fn world_data_packs_view_then_projection() {
    let support = engine_support(1, 0);
    let mut engine = Engine::new(&support, [800, 600], 0, 0);
    let mut view = [0u32; 16];
    let mut projection = [0u32; 16];
    view[0] = 0x0403_0201;
    projection[15] = 0x0807_0605;
    engine.set_view_projection(view, projection);
    let bytes = engine.world_data_bytes();
    assert_eq!(bytes.len(), 128);
    assert_eq!(&bytes[0..4], &[0x01, 0x02, 0x03, 0x04]);
    assert_eq!(&bytes[4..8], &[0, 0, 0, 0]);
    assert_eq!(&bytes[124..128], &[0x05, 0x06, 0x07, 0x08]);
}

#[test]
fn suboptimal_acquire_proceeds_but_flags_recreation() {
    let support = engine_support(1, 0);
    let mut engine = Engine::new(&support, [800, 600], 0, 0);
    match engine.begin_draw() {
        DrawBegin::Wait { .. } => {}
        DrawBegin::Skip => panic!("draw unexpectedly skipped"),
    }
    // A suboptimal image is still drawn, but a recreation is owed after.
    let decision = engine.finish_acquire(AcquireOutcome::Image { image_index: 0, suboptimal: true });
    assert_eq!(decision, AcquireDecision::Proceed { image_index: 0 });
    assert!(engine.needs_recreate());
    engine.reset_slot_fence();
    engine.finish_submit();
    engine.finish_present(PresentOutcome::Presented { suboptimal: false });
    assert!(engine.needs_recreate());
    assert_eq!(engine.frame.current_frame(), 1);
    engine.recreate(&support);
    let slot = run_one_draw(&mut engine, 0);
    assert_eq!(slot, 1);
}
