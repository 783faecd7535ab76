use voxel_physics::cell::CellData;
use voxel_physics::data::GameWorldData;
use voxel_physics::geometry::GridGeometry;
use voxel_physics::orchestrator::{advance_frame, GameWorldNode, GameWorldState, WorkgroupCounts};
use voxel_physics::registry::{GameWorldPipeline, PipelineRegistry, StageKind};
use voxel_physics::status::{PipelineStateUtils, PipelineStatus};

fn small_world() -> (PipelineRegistry, GameWorldPipeline, GridGeometry, GameWorldData) {
    let geometry = GridGeometry { width: 16, height: 16, tile_width: 8, tile_height: 8 };
    let data_size = CellData::get_world_data_size((16, 16));
    let mut registry = PipelineRegistry::new();
    let pipeline = GameWorldPipeline::new(&mut registry, data_size, 7);
    let data = GameWorldData::new(1, 2, 3, data_size);
    (registry, pipeline, geometry, data)
}

fn ready_all(registry: &mut PipelineRegistry, pipeline: &GameWorldPipeline) {
    registry.set_ready(pipeline.init_pipeline);
    registry.set_ready(pipeline.pre_update_pipeline);
    registry.set_ready(pipeline.update_gravity_pipeline);
    registry.set_ready(pipeline.update_impulse_pipeline);
    registry.set_ready(pipeline.update_position_pipeline);
}

#[test]
fn status_queries_tell_the_three_states_apart() {
    assert!(PipelineStatus::Ready.is_ok());
    assert!(!PipelineStatus::Ready.is_err());
    assert!(!PipelineStatus::Ready.is_queued());
    assert!(PipelineStatus::Failed.is_err());
    assert!(!PipelineStatus::Failed.is_ok());
    assert!(PipelineStatus::Pending.is_queued());
    assert!(!PipelineStatus::Pending.is_ok());
}

#[test]
fn registration_starts_pending_in_stage_order() {
    let (registry, pipeline, _, _) = small_world();
    assert_eq!(registry.len(), 5);
    assert_eq!(pipeline.init_pipeline, 0);
    assert_eq!(pipeline.pre_update_pipeline, 1);
    assert_eq!(pipeline.update_gravity_pipeline, 2);
    assert_eq!(pipeline.update_impulse_pipeline, 3);
    assert_eq!(pipeline.update_position_pipeline, 4);
    let stages = [
        StageKind::Init,
        StageKind::PreUpdate,
        StageKind::UpdateGravity,
        StageKind::UpdateImpulse,
        StageKind::UpdatePosition,
    ];
    for (handle, stage) in stages.iter().enumerate() {
        assert_eq!(registry.entries[handle].stage, *stage);
        assert_eq!(registry.entries[handle].shader, 7);
        assert!(registry.status(handle).is_queued());
    }
}

#[test]
fn compilation_outcomes_are_recorded_per_handle() {
    let (mut registry, pipeline, _, _) = small_world();
    registry.set_ready(pipeline.init_pipeline);
    registry.set_failed(pipeline.update_impulse_pipeline);
    assert!(registry.status(pipeline.init_pipeline).is_ok());
    assert!(registry.status(pipeline.update_impulse_pipeline).is_err());
    assert!(registry.status(pipeline.pre_update_pipeline).is_queued());
}

#[test]
fn orchestrator_waits_for_each_stage_pipeline() {
    let (mut registry, pipeline, _, _) = small_world();
    let mut node = GameWorldNode::default();
    assert_eq!(node.state, GameWorldState::Loading);

    // Nothing ready: every tick stays in Loading.
    for _ in 0..4 {
        node.update(&registry, &pipeline);
        assert_eq!(node.state, GameWorldState::Loading);
    }

    registry.set_ready(pipeline.init_pipeline);
    node.update(&registry, &pipeline);
    assert_eq!(node.state, GameWorldState::Init);

    // Gravity ready but the pre-update pass still pending: no advance.
    registry.set_ready(pipeline.update_gravity_pipeline);
    node.update(&registry, &pipeline);
    assert_eq!(node.state, GameWorldState::Init);

    registry.set_ready(pipeline.pre_update_pipeline);
    node.update(&registry, &pipeline);
    assert_eq!(node.state, GameWorldState::UpdateGravity);
}

#[test]
fn late_init_holds_loading_then_catches_up() {
    // All pipelines ready at tick zero except init; init flips ready after
    // tick three, so tick four enters Init and tick five enters the already
    // ready gravity stage.
    let (mut registry, pipeline, _, _) = small_world();
    registry.set_ready(pipeline.pre_update_pipeline);
    registry.set_ready(pipeline.update_gravity_pipeline);
    registry.set_ready(pipeline.update_impulse_pipeline);
    registry.set_ready(pipeline.update_position_pipeline);

    let mut node = GameWorldNode::default();
    for _ in 0..4 {
        node.update(&registry, &pipeline);
        assert_eq!(node.state, GameWorldState::Loading);
    }
    registry.set_ready(pipeline.init_pipeline);
    node.update(&registry, &pipeline);
    assert_eq!(node.state, GameWorldState::Init);
    node.update(&registry, &pipeline);
    assert_eq!(node.state, GameWorldState::UpdateGravity);
}

#[test]
fn ready_pipelines_cycle_through_physics_stages() {
    let (mut registry, pipeline, _, _) = small_world();
    ready_all(&mut registry, &pipeline);
    let mut node = GameWorldNode::default();
    let expected = [
        GameWorldState::Init,
        GameWorldState::UpdateGravity,
        GameWorldState::UpdateImpulse,
        GameWorldState::UpdatePosition,
        GameWorldState::UpdateGravity,
        GameWorldState::UpdateImpulse,
        GameWorldState::UpdatePosition,
        GameWorldState::UpdateGravity,
    ];
    for stage in expected {
        node.update(&registry, &pipeline);
        assert_eq!(node.state, stage);
    }
}

#[test]
fn failed_compilation_blocks_all_later_stages() {
    let (mut registry, pipeline, _, _) = small_world();
    registry.set_ready(pipeline.init_pipeline);
    registry.set_ready(pipeline.pre_update_pipeline);
    registry.set_failed(pipeline.update_gravity_pipeline);
    registry.set_ready(pipeline.update_impulse_pipeline);
    registry.set_ready(pipeline.update_position_pipeline);

    let mut node = GameWorldNode::default();
    node.update(&registry, &pipeline);
    assert_eq!(node.state, GameWorldState::Init);
    for _ in 0..16 {
        node.update(&registry, &pipeline);
        assert_eq!(node.state, GameWorldState::Init);
    }
}

#[test]
fn pre_update_runs_in_every_physics_stage_only() {
    let mut node = GameWorldNode::default();
    assert!(!node.pre_update_required());
    node.state = GameWorldState::Init;
    assert!(!node.pre_update_required());
    for stage in [
        GameWorldState::UpdateGravity,
        GameWorldState::UpdateImpulse,
        GameWorldState::UpdatePosition,
    ] {
        node.state = stage;
        assert!(node.pre_update_required());
    }
}

#[test]
fn current_pipeline_follows_the_stage() {
    let (_, pipeline, _, _) = small_world();
    let mut node = GameWorldNode::default();
    assert_eq!(node.get_current_pipeline(&pipeline), None);
    node.state = GameWorldState::Init;
    assert_eq!(node.get_current_pipeline(&pipeline), Some(pipeline.init_pipeline));
    node.state = GameWorldState::UpdateGravity;
    assert_eq!(
        node.get_current_pipeline(&pipeline),
        Some(pipeline.update_gravity_pipeline)
    );
    node.state = GameWorldState::UpdateImpulse;
    assert_eq!(
        node.get_current_pipeline(&pipeline),
        Some(pipeline.update_impulse_pipeline)
    );
    node.state = GameWorldState::UpdatePosition;
    assert_eq!(
        node.get_current_pipeline(&pipeline),
        Some(pipeline.update_position_pipeline)
    );
}

#[test]
fn loading_dispatches_nothing_and_init_dispatches_once() {
    let (mut registry, pipeline, geometry, _) = small_world();
    let node = GameWorldNode::default();
    assert_eq!(node.run(&registry, &pipeline, &geometry).len(), 0);

    registry.set_ready(pipeline.init_pipeline);
    let node = GameWorldNode { state: GameWorldState::Init };
    let commands = node.run(&registry, &pipeline, &geometry);
    assert_eq!(commands.len(), 1);
    assert_eq!(commands[0].pipeline, pipeline.init_pipeline);
    assert_eq!(commands[0].workgroups, WorkgroupCounts { x: 2, y: 2, z: 1 });
}

#[test]
fn physics_stage_dispatches_pre_update_then_main_pass() {
    let (mut registry, pipeline, geometry, _) = small_world();
    ready_all(&mut registry, &pipeline);
    let node = GameWorldNode { state: GameWorldState::UpdateImpulse };
    let commands = node.run(&registry, &pipeline, &geometry);
    assert_eq!(commands.len(), 2);
    assert_eq!(commands[0].pipeline, pipeline.pre_update_pipeline);
    assert_eq!(commands[1].pipeline, pipeline.update_impulse_pipeline);
    for command in &commands {
        assert_eq!(command.workgroups, WorkgroupCounts { x: 2, y: 2, z: 1 });
    }
}

#[test]
fn frame_binds_pre_swap_roles_and_swaps_after_dispatch() {
    let (mut registry, pipeline, geometry, mut data) = small_world();
    ready_all(&mut registry, &pipeline);
    let mut node = GameWorldNode::default();

    // First frame: advances into Init and dispatches it; the bind group was
    // built before the swap, and the roles are exchanged afterwards.
    let (bind_group, commands) =
        advance_frame(&mut node, &registry, &pipeline, &mut data, &geometry).unwrap();
    assert_eq!(node.state, GameWorldState::Init);
    assert_eq!(commands.len(), 1);
    assert_eq!(bind_group.0.entries[1].resource, 2);
    assert_eq!(bind_group.0.entries[2].resource, 3);
    assert_eq!((data.data_prev, data.data_next), (3, 2));

    // Next frame reads what the last one wrote.
    let (bind_group, commands) =
        advance_frame(&mut node, &registry, &pipeline, &mut data, &geometry).unwrap();
    assert_eq!(node.state, GameWorldState::UpdateGravity);
    assert_eq!(commands.len(), 2);
    assert_eq!(bind_group.0.entries[1].resource, 3);
    assert_eq!((data.data_prev, data.data_next), (2, 3));
}

#[test]
fn idle_frame_leaves_buffers_alone() {
    let (registry, pipeline, geometry, mut data) = small_world();
    let mut node = GameWorldNode::default();
    let (_, commands) =
        advance_frame(&mut node, &registry, &pipeline, &mut data, &geometry).unwrap();
    assert_eq!(node.state, GameWorldState::Loading);
    assert!(commands.is_empty());
    assert_eq!((data.data_prev, data.data_next), (2, 3));
}

#[test]
fn frame_with_mismatched_buffers_fails_fast() {
    let (mut registry, pipeline, geometry, _) = small_world();
    ready_all(&mut registry, &pipeline);
    let mut node = GameWorldNode::default();
    // Buffers allocated for a different size than the pipelines' layout.
    let mut data = GameWorldData::new(1, 2, 3, 9999);
    let result = advance_frame(&mut node, &registry, &pipeline, &mut data, &geometry);
    assert!(result.is_err());
    assert_eq!(node.state, GameWorldState::Loading);
    assert_eq!((data.data_prev, data.data_next), (2, 3));
}
