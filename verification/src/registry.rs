//! The pipeline registry: one compute pipeline per named stage, compiled
//! asynchronously against the shared world binding layout, with a
//! non-blocking per-pipeline status poll.
//!
//! Compilation is requested once per stage at registration and transitions
//! on the backend's own schedule from pending to ready or failed; the
//! registry never re-requests compilation, and a failed entry stays failed.

use vstd::prelude::*;

use crate::binding::{is_world_layout, world_bind_group_layout, BindGroupLayout};
use crate::status::PipelineStatus;

verus! {

/// The named shader entry points, one per stage of the compute cycle.
#[derive(Clone, Copy, Debug, PartialEq, Eq, Structural)]
pub enum StageKind {
    Init,
    PreUpdate,
    UpdateGravity,
    UpdateImpulse,
    UpdatePosition,
}

/// One registered pipeline: the stage it compiles, the shader resource it
/// compiles from, and how far its compilation has come.
#[derive(Clone, Copy, Debug, PartialEq, Eq, Structural)]
pub struct PipelineEntry {
    pub stage: StageKind,
    pub shader: u64,
    pub status: PipelineStatus,
}

/// Queue of requested pipeline compilations, polled by handle.
#[derive(Debug)]
pub struct PipelineRegistry {
    pub entries: Vec<PipelineEntry>,
}

impl PipelineRegistry {
    /// An empty registry: nothing requested yet.
    pub fn new() -> (registry: PipelineRegistry)
        ensures
            registry.entries@ == Seq::<PipelineEntry>::empty(),
    {
        let registry = PipelineRegistry { entries: Vec::new() };
        proof {
            assert(registry.entries@ =~= Seq::<PipelineEntry>::empty());
        }
        registry
    }

    /// Request asynchronous compilation of `stage`'s entry point in the
    /// shader named by `shader`. Returns at once with the new pipeline's
    /// handle; its status starts as pending and earlier entries are
    /// untouched.
    pub fn register(&mut self, stage: StageKind, shader: u64) -> (handle: usize)
        requires
            old(self).entries@.len() < usize::MAX,
        ensures
            handle == old(self).entries@.len(),
            final(self).entries@ == old(self).entries@.push(
                PipelineEntry { stage, shader, status: PipelineStatus::Pending },
            ),
    {
        let handle = self.entries.len();
        self.entries.push(PipelineEntry { stage, shader, status: PipelineStatus::Pending });
        handle
    }

    /// Number of registered pipelines.
    pub fn len(&self) -> (n: usize)
        ensures
            n == self.entries@.len(),
    {
        self.entries.len()
    }

    /// Non-blocking poll of one pipeline's compilation status.
    pub fn status(&self, handle: usize) -> (status: PipelineStatus)
        requires
            handle < self.entries@.len(),
        ensures
            status == self.entries@[handle as int].status,
    {
        self.entries[handle].status
    }

    /// Record that the backend finished compiling `handle`'s pipeline. Only
    /// a pending compilation can finish: ready and failed are terminal.
    pub fn set_ready(&mut self, handle: usize)
        requires
            handle < old(self).entries@.len(),
            old(self).entries@[handle as int].status is Pending,
        ensures
            final(self).entries@ == old(self).entries@.update(
                handle as int,
                PipelineEntry {
                    stage: old(self).entries@[handle as int].stage,
                    shader: old(self).entries@[handle as int].shader,
                    status: PipelineStatus::Ready,
                },
            ),
    {
        let stage = self.entries[handle].stage;
        let shader = self.entries[handle].shader;
        self.entries.set(handle, PipelineEntry { stage, shader, status: PipelineStatus::Ready });
    }

    /// Record that the backend's compilation of `handle`'s pipeline failed.
    /// The failure is permanent: the registry has no retry path, so the
    /// stage can never become dispatchable.
    pub fn set_failed(&mut self, handle: usize)
        requires
            handle < old(self).entries@.len(),
            old(self).entries@[handle as int].status is Pending,
        ensures
            final(self).entries@ == old(self).entries@.update(
                handle as int,
                PipelineEntry {
                    stage: old(self).entries@[handle as int].stage,
                    shader: old(self).entries@[handle as int].shader,
                    status: PipelineStatus::Failed,
                },
            ),
    {
        let stage = self.entries[handle].stage;
        let shader = self.entries[handle].shader;
        self.entries.set(handle, PipelineEntry { stage, shader, status: PipelineStatus::Failed });
    }
}

/// The shared world binding layout and the five stage pipelines compiled
/// against it, each named by its registry handle.
#[derive(Debug)]
pub struct GameWorldPipeline {
    pub world_bind_group_layout: BindGroupLayout,
    pub init_pipeline: usize,
    pub pre_update_pipeline: usize,
    pub update_gravity_pipeline: usize,
    pub update_impulse_pipeline: usize,
    pub update_position_pipeline: usize,
}

/// Compilation status of each stage pipeline at one instant, as the
/// orchestrator observes it through the registry.
#[derive(Clone, Copy, Debug, PartialEq, Eq, Structural)]
pub struct StageStatuses {
    pub init: PipelineStatus,
    pub pre_update: PipelineStatus,
    pub update_gravity: PipelineStatus,
    pub update_impulse: PipelineStatus,
    pub update_position: PipelineStatus,
}

impl GameWorldPipeline {
    /// The five handles name five distinct live entries of `registry`, each
    /// registered for its stage.
    pub open spec fn wf(self, registry: PipelineRegistry) -> bool {
        &&& self.init_pipeline < registry.entries@.len()
        &&& self.pre_update_pipeline < registry.entries@.len()
        &&& self.update_gravity_pipeline < registry.entries@.len()
        &&& self.update_impulse_pipeline < registry.entries@.len()
        &&& self.update_position_pipeline < registry.entries@.len()
        &&& registry.entries@[self.init_pipeline as int].stage == StageKind::Init
        &&& registry.entries@[self.pre_update_pipeline as int].stage == StageKind::PreUpdate
        &&& registry.entries@[self.update_gravity_pipeline as int].stage
            == StageKind::UpdateGravity
        &&& registry.entries@[self.update_impulse_pipeline as int].stage
            == StageKind::UpdateImpulse
        &&& registry.entries@[self.update_position_pipeline as int].stage
            == StageKind::UpdatePosition
    }

    /// What the orchestrator sees of the stage pipelines in `registry` now.
    pub open spec fn snapshot(self, registry: PipelineRegistry) -> StageStatuses {
        StageStatuses {
            init: registry.entries@[self.init_pipeline as int].status,
            pre_update: registry.entries@[self.pre_update_pipeline as int].status,
            update_gravity: registry.entries@[self.update_gravity_pipeline as int].status,
            update_impulse: registry.entries@[self.update_impulse_pipeline as int].status,
            update_position: registry.entries@[self.update_position_pipeline as int].status,
        }
    }

    /// Build the world binding layout for cell buffers of `data_size` bytes
    /// and request compilation of all five stage pipelines against it, in
    /// stage order, from the shader resource named by `shader`. Every
    /// compilation starts pending; nothing already in the registry is
    /// touched.
    pub fn new(registry: &mut PipelineRegistry, data_size: u64, shader: u64) -> (pipeline:
        GameWorldPipeline)
        requires
            old(registry).entries@.len() + 5 <= usize::MAX,
        ensures
            is_world_layout(pipeline.world_bind_group_layout, data_size),
            pipeline.init_pipeline == old(registry).entries@.len(),
            pipeline.pre_update_pipeline == old(registry).entries@.len() + 1,
            pipeline.update_gravity_pipeline == old(registry).entries@.len() + 2,
            pipeline.update_impulse_pipeline == old(registry).entries@.len() + 3,
            pipeline.update_position_pipeline == old(registry).entries@.len() + 4,
            final(registry).entries@ == old(registry).entries@ + seq![
                (PipelineEntry { stage: StageKind::Init, shader, status: PipelineStatus::Pending }),
                (PipelineEntry {
                    stage: StageKind::PreUpdate,
                    shader,
                    status: PipelineStatus::Pending,
                }),
                (PipelineEntry {
                    stage: StageKind::UpdateGravity,
                    shader,
                    status: PipelineStatus::Pending,
                }),
                (PipelineEntry {
                    stage: StageKind::UpdateImpulse,
                    shader,
                    status: PipelineStatus::Pending,
                }),
                (PipelineEntry {
                    stage: StageKind::UpdatePosition,
                    shader,
                    status: PipelineStatus::Pending,
                }),
            ],
            pipeline.wf(*final(registry)),
    {
        let world_bind_group_layout = world_bind_group_layout(data_size);
        let init_pipeline = registry.register(StageKind::Init, shader);
        let pre_update_pipeline = registry.register(StageKind::PreUpdate, shader);
        let update_gravity_pipeline = registry.register(StageKind::UpdateGravity, shader);
        let update_impulse_pipeline = registry.register(StageKind::UpdateImpulse, shader);
        let update_position_pipeline = registry.register(StageKind::UpdatePosition, shader);
        let pipeline = GameWorldPipeline {
            world_bind_group_layout,
            init_pipeline,
            pre_update_pipeline,
            update_gravity_pipeline,
            update_impulse_pipeline,
            update_position_pipeline,
        };
        proof {
            assert(registry.entries@ =~= old(registry).entries@ + seq![
                (PipelineEntry { stage: StageKind::Init, shader, status: PipelineStatus::Pending }),
                (PipelineEntry {
                    stage: StageKind::PreUpdate,
                    shader,
                    status: PipelineStatus::Pending,
                }),
                (PipelineEntry {
                    stage: StageKind::UpdateGravity,
                    shader,
                    status: PipelineStatus::Pending,
                }),
                (PipelineEntry {
                    stage: StageKind::UpdateImpulse,
                    shader,
                    status: PipelineStatus::Pending,
                }),
                (PipelineEntry {
                    stage: StageKind::UpdatePosition,
                    shader,
                    status: PipelineStatus::Pending,
                }),
            ]);
        }
        pipeline
    }
}

} // verus!
