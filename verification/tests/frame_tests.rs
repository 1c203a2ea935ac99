use cpyte_engine::frame::{FrameOp, Renderer};
use cpyte_engine::scene::{Entity, SceneGraph};

fn two_entity_scene() -> SceneGraph {
    let mut scene = SceneGraph::new();
    scene.insert("Entity", Entity::new(8, 36, 16, 16));
    scene.insert("Entity 1", Entity::new(4, 6, 8, 4));
    scene
}

#[test]
fn begin_frame_waits_then_acquires() {
    let scene = two_entity_scene();
    let mut renderer = Renderer::new(2, 3, &scene);
    let ops = renderer.begin_frame();
    assert_eq!(
        ops,
        vec![
            FrameOp::WaitFence { slot: 0 },
            FrameOp::AcquireImage { wait_semaphore_slot: 0 },
        ]
    );
}

#[test]
fn one_frame_records_one_draw_per_entity() {
    let scene = two_entity_scene();
    let mut renderer = Renderer::new(2, 3, &scene);
    let _ = renderer.begin_frame();
    let ops = renderer.finish_frame(1);
    let draws: Vec<FrameOp> = ops
        .iter()
        .filter(|op| matches!(op, FrameOp::DrawIndexed { .. }))
        .cloned()
        .collect();
    assert_eq!(
        draws,
        vec![
            FrameOp::DrawIndexed { image: 1, entity: 0, index_count: 36 },
            FrameOp::DrawIndexed { image: 1, entity: 1, index_count: 6 },
        ]
    );
    // Each draw directly follows the binds of that same entity's resources.
    for (position, op) in ops.iter().enumerate() {
        if let FrameOp::DrawIndexed { image, entity, .. } = op {
            assert_eq!(
                ops[position - 4],
                FrameOp::BindVertexBuffer { image: *image, entity: *entity }
            );
            assert_eq!(
                ops[position - 3],
                FrameOp::BindIndexBuffer { image: *image, entity: *entity }
            );
            assert_eq!(
                ops[position - 2],
                FrameOp::BindDescriptorSet { image: *image, entity: *entity }
            );
            assert_eq!(
                ops[position - 1],
                FrameOp::PushModelMatrix { image: *image, entity: *entity }
            );
        }
    }
}

#[test]
fn first_use_of_an_image_needs_no_guard_wait() {
    let scene = two_entity_scene();
    let mut renderer = Renderer::new(2, 3, &scene);
    let _ = renderer.begin_frame();
    let ops = renderer.finish_frame(0);
    assert!(ops.iter().all(|op| !matches!(op, FrameOp::WaitImageFence { .. })));
    assert_eq!(ops[0], FrameOp::ResetCommandBuffer { image: 0 });
    assert_eq!(ops[1], FrameOp::UpdateUniformBuffer { image: 0 });
    assert_eq!(ops[2], FrameOp::BeginRecording { image: 0 });
}

#[test]
fn reacquired_image_is_guarded_by_its_previous_slot_fence() {
    let scene = two_entity_scene();
    let mut renderer = Renderer::new(2, 3, &scene);
    let _ = renderer.begin_frame();
    let _ = renderer.finish_frame(2);
    let _ = renderer.begin_frame();
    let ops = renderer.finish_frame(2);
    // Slot 0 submitted for image 2; the next use of image 2 (slot 1) first
    // waits on slot 0's fence.
    assert_eq!(ops[0], FrameOp::WaitImageFence { slot: 0 });
    assert_eq!(ops[1], FrameOp::ResetCommandBuffer { image: 2 });
}

#[test]
fn frame_ends_with_reset_submit_present_on_its_own_slot() {
    let scene = two_entity_scene();
    let mut renderer = Renderer::new(2, 3, &scene);
    let _ = renderer.begin_frame();
    let ops = renderer.finish_frame(1);
    let n = ops.len();
    assert_eq!(ops[n - 4], FrameOp::FinishRecording { image: 1 });
    assert_eq!(ops[n - 3], FrameOp::ResetFence { slot: 0 });
    assert_eq!(
        ops[n - 2],
        FrameOp::Submit {
            image: 1,
            wait_semaphore_slot: 0,
            signal_semaphore_slot: 0,
            fence_slot: 0,
        }
    );
    assert_eq!(ops[n - 1], FrameOp::Present { image: 1, wait_semaphore_slot: 0 });
}

#[test]
fn slots_cycle_modulo_the_flight_count() {
    let scene = two_entity_scene();
    let mut renderer = Renderer::new(2, 3, &scene);
    for expected_slot in [0usize, 1, 0, 1, 0] {
        let begin_ops = renderer.begin_frame();
        assert_eq!(begin_ops[0], FrameOp::WaitFence { slot: expected_slot });
        let _ = renderer.finish_frame(0);
    }
}

#[test]
fn a_single_flight_slot_still_paces_every_frame() {
    let scene = two_entity_scene();
    let mut renderer = Renderer::new(1, 2, &scene);
    for _ in 0..3 {
        let begin_ops = renderer.begin_frame();
        assert_eq!(begin_ops[0], FrameOp::WaitFence { slot: 0 });
        let ops = renderer.finish_frame(0);
        assert!(matches!(ops[ops.len() - 2], FrameOp::Submit { fence_slot: 0, .. }));
    }
}

#[test]
fn empty_scene_records_no_draws() {
    let scene = SceneGraph::new();
    let mut renderer = Renderer::new(2, 2, &scene);
    let _ = renderer.begin_frame();
    let ops = renderer.finish_frame(0);
    assert!(ops.iter().all(|op| !matches!(op, FrameOp::DrawIndexed { .. })));
    assert_eq!(ops.len(), 7);
}

#[test]
fn scene_insert_keeps_order_and_replaces_by_name() {
    let mut scene = SceneGraph::new();
    scene.insert("first", Entity::new(1, 1, 2, 2));
    scene.insert("second", Entity::new(2, 2, 2, 2));
    assert_eq!(scene.len(), 2);
    assert_eq!(scene.entity_at(0).vertex_count, 1);
    // Reinserting under an existing name replaces in place.
    scene.insert("first", Entity::new(9, 9, 2, 2));
    assert_eq!(scene.len(), 2);
    assert_eq!(scene.entity_at(0).vertex_count, 9);
    assert_eq!(scene.entity_at(1).vertex_count, 2);
}

#[test]
fn scene_update_turns_every_entity_one_degree() {
    let mut scene = SceneGraph::new();
    scene.insert("a", Entity::new(1, 1, 2, 2));
    scene.insert("b", Entity::new(1, 1, 2, 2));
    scene.on_update();
    scene.on_update();
    assert_eq!(scene.entity_at(0).rotation_degrees, 2);
    assert_eq!(scene.entity_at(1).rotation_degrees, 2);
}

#[test]
fn rotation_wraps_after_a_full_turn() {
    let mut entity = Entity::new(1, 1, 2, 2);
    for _ in 0..359 {
        entity.on_update();
    }
    assert_eq!(entity.rotation_degrees, 359);
    entity.on_update();
    assert_eq!(entity.rotation_degrees, 0);
}

#[test]
fn an_instrumented_fence_observes_a_wait_before_every_reuse() {
    // A fence mock: per slot, whether a wait has observed completion since
    // the slot's fence was last submitted. Reusing a slot's fence or
    // semaphores without an observed wait would trip the assertions.
    for flight_count in 1..=3usize {
        let scene = two_entity_scene();
        let mut renderer = Renderer::new(flight_count, 2, &scene);
        let mut observed = vec![true; flight_count];
        for tick in 0..6usize {
            let begin_ops = renderer.begin_frame();
            for op in &begin_ops {
                match op {
                    FrameOp::WaitFence { slot } => observed[*slot] = true,
                    FrameOp::AcquireImage { wait_semaphore_slot } => {
                        assert!(observed[*wait_semaphore_slot]);
                    }
                    _ => panic!("unexpected op in the frame's first half"),
                }
            }
            let ops = renderer.finish_frame(tick % 2);
            for op in &ops {
                match op {
                    FrameOp::WaitImageFence { slot } => observed[*slot] = true,
                    FrameOp::ResetFence { slot } => assert!(observed[*slot]),
                    FrameOp::Submit { wait_semaphore_slot, signal_semaphore_slot, fence_slot, .. } => {
                        assert!(observed[*wait_semaphore_slot]);
                        assert!(observed[*signal_semaphore_slot]);
                        assert!(observed[*fence_slot]);
                        observed[*fence_slot] = false;
                    }
                    FrameOp::Present { wait_semaphore_slot, .. } => {
                        // The render-done semaphore belongs to the slot whose
                        // fence is now in flight; its reuse next round is
                        // guarded by that fence.
                        assert_eq!(observed[*wait_semaphore_slot], false);
                    }
                    _ => {}
                }
            }
        }
    }
}
