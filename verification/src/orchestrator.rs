//! The stage orchestrator: owns the current stage of the compute cycle,
//! advances only when the next stage's pipeline has finished compiling, and
//! each tick emits the dispatch commands for the current stage against the
//! frame's bind group.
//!
//! Stages run `Loading -> Init -> UpdateGravity -> UpdateImpulse ->
//! UpdatePosition -> UpdateGravity -> ...`; once the physics cycle is
//! entered it repeats indefinitely and `Init` is never revisited. While the
//! next stage's pipeline is still compiling the orchestrator stays where it
//! is and re-dispatches the current stage, so compilation latency degrades
//! the simulation to an idle stage instead of blocking.

use vstd::prelude::*;

use crate::binding::{
    is_bind_group_for, is_world_layout, prepare_bind_group, BindGroupError, GameWorldBindGroup,
};
use crate::data::GameWorldData;
use crate::geometry::{ceil_div, GridGeometry};
use crate::registry::{GameWorldPipeline, PipelineRegistry, StageStatuses};
use crate::status::{PipelineStateUtils, PipelineStatus};

verus! {

/// The orchestrator's current stage.
#[derive(Clone, Copy, Debug, PartialEq, Eq, Structural)]
pub enum GameWorldState {
    Loading,
    Init,
    UpdateGravity,
    UpdateImpulse,
    UpdatePosition,
}

/// The stage entered when a transition fires: the next stage in declaration
/// order, with the cyclic wrap from the last physics stage back to the
/// first.
pub open spec fn next_stage(state: GameWorldState) -> GameWorldState {
    match state {
        GameWorldState::Loading => GameWorldState::Init,
        GameWorldState::Init => GameWorldState::UpdateGravity,
        GameWorldState::UpdateGravity => GameWorldState::UpdateImpulse,
        GameWorldState::UpdateImpulse => GameWorldState::UpdatePosition,
        GameWorldState::UpdatePosition => GameWorldState::UpdateGravity,
    }
}

/// Compilation status of the pipeline belonging to the stage after `state`.
pub open spec fn next_stage_status(statuses: StageStatuses, state: GameWorldState)
    -> PipelineStatus {
    match state {
        GameWorldState::Loading => statuses.init,
        GameWorldState::Init => statuses.update_gravity,
        GameWorldState::UpdateGravity => statuses.update_impulse,
        GameWorldState::UpdateImpulse => statuses.update_position,
        GameWorldState::UpdatePosition => statuses.update_gravity,
    }
}

/// Whether the per-tick poll advances out of `state`: the next stage's own
/// pipeline must be ready, and past the initial load the shared pre-update
/// pass must be ready too, since every physics stage dispatches it first.
pub open spec fn advance_fires(statuses: StageStatuses, state: GameWorldState) -> bool {
    &&& next_stage_status(statuses, state) is Ready
    &&& !(state is Loading) ==> statuses.pre_update is Ready
}

/// The stage after one tick's poll.
pub open spec fn next_state(statuses: StageStatuses, state: GameWorldState) -> GameWorldState {
    if advance_fires(statuses, state) {
        next_stage(state)
    } else {
        state
    }
}

/// The stage after a run of ticks, one per observed snapshot of the stage
/// pipelines' statuses, oldest snapshot first.
pub open spec fn state_after(state: GameWorldState, snapshots: Seq<StageStatuses>)
    -> GameWorldState
    decreases snapshots.len(),
{
    if snapshots.len() == 0 {
        state
    } else {
        state_after(next_state(snapshots.first(), state), snapshots.drop_first())
    }
}

/// Every stage the orchestrator can occupy is backed by compiled work: its
/// own pipeline reports ready, and in the physics cycle the pre-update
/// pipeline does too. `Loading` dispatches nothing and needs nothing.
pub open spec fn stage_ready(statuses: StageStatuses, state: GameWorldState) -> bool {
    match state {
        GameWorldState::Loading => true,
        GameWorldState::Init => statuses.init is Ready,
        GameWorldState::UpdateGravity => statuses.update_gravity is Ready
            && statuses.pre_update is Ready,
        GameWorldState::UpdateImpulse => statuses.update_impulse is Ready
            && statuses.pre_update is Ready,
        GameWorldState::UpdatePosition => statuses.update_position is Ready
            && statuses.pre_update is Ready,
    }
}

/// The registry handle of the pipeline that simulates `state`, if the state
/// dispatches at all.
pub open spec fn current_pipeline(pipeline: GameWorldPipeline, state: GameWorldState) -> Option<
    usize,
> {
    match state {
        GameWorldState::Loading => None,
        GameWorldState::Init => Some(pipeline.init_pipeline),
        GameWorldState::UpdateGravity => Some(pipeline.update_gravity_pipeline),
        GameWorldState::UpdateImpulse => Some(pipeline.update_impulse_pipeline),
        GameWorldState::UpdatePosition => Some(pipeline.update_position_pipeline),
    }
}

/// Workgroup counts per dispatch axis.
#[derive(Clone, Copy, Debug, PartialEq, Eq, Structural)]
pub struct WorkgroupCounts {
    pub x: u32,
    pub y: u32,
    pub z: u32,
}

/// One recorded compute dispatch: which pipeline to run and how many
/// workgroups to launch per axis, against the frame's bind group.
#[derive(Clone, Copy, Debug, PartialEq, Eq, Structural)]
pub struct DispatchCommand {
    pub pipeline: usize,
    pub workgroups: WorkgroupCounts,
}

/// The dispatch of one pass over the whole grid.
pub open spec fn grid_dispatch(handle: usize, geometry: GridGeometry) -> DispatchCommand {
    DispatchCommand {
        pipeline: handle,
        workgroups: WorkgroupCounts {
            x: ceil_div(geometry.width as nat, geometry.tile_width as nat) as u32,
            y: ceil_div(geometry.height as nat, geometry.tile_height as nat) as u32,
            z: 1u32,
        },
    }
}

/// Everything one tick dispatches in `state`: nothing while loading, the
/// init pass alone in `Init`, and in each physics stage the shared
/// pre-update pass followed by the stage's own pass, all over the full grid
/// and all against the same bind group.
pub open spec fn dispatch_plan(
    pipeline: GameWorldPipeline,
    state: GameWorldState,
    geometry: GridGeometry,
) -> Seq<DispatchCommand> {
    match state {
        GameWorldState::Loading => Seq::empty(),
        GameWorldState::Init => seq![grid_dispatch(pipeline.init_pipeline, geometry)],
        GameWorldState::UpdateGravity => seq![
            grid_dispatch(pipeline.pre_update_pipeline, geometry),
            grid_dispatch(pipeline.update_gravity_pipeline, geometry),
        ],
        GameWorldState::UpdateImpulse => seq![
            grid_dispatch(pipeline.pre_update_pipeline, geometry),
            grid_dispatch(pipeline.update_impulse_pipeline, geometry),
        ],
        GameWorldState::UpdatePosition => seq![
            grid_dispatch(pipeline.pre_update_pipeline, geometry),
            grid_dispatch(pipeline.update_position_pipeline, geometry),
        ],
    }
}

/// The render-graph node owning the orchestrator's state.
#[derive(Clone, Copy, Debug)]
pub struct GameWorldNode {
    pub state: GameWorldState,
}

impl Default for GameWorldNode {
    /// A fresh node waits for the init pipeline to compile.
    fn default() -> (node: Self)
        ensures
            node.state is Loading,
    {
        GameWorldNode { state: GameWorldState::Loading }
    }
}

impl GameWorldNode {
    /// Whether this tick runs the lightweight pre-update pass before the
    /// main pass: in every physics stage, never while loading or
    /// initialising.
    pub fn pre_update_required(&self) -> (required: bool)
        ensures
            required == !(self.state is Loading || self.state is Init),
    {
        !(matches!(self.state, GameWorldState::Loading) || matches!(
            self.state,
            GameWorldState::Init,
        ))
    }

    /// The pipeline handle the current stage dispatches, if any.
    pub fn get_current_pipeline(&self, pipeline: &GameWorldPipeline) -> (handle: Option<usize>)
        ensures
            handle == current_pipeline(*pipeline, self.state),
    {
        match self.state {
            GameWorldState::Loading => None,
            GameWorldState::Init => Some(pipeline.init_pipeline),
            GameWorldState::UpdateGravity => Some(pipeline.update_gravity_pipeline),
            GameWorldState::UpdateImpulse => Some(pipeline.update_impulse_pipeline),
            GameWorldState::UpdatePosition => Some(pipeline.update_position_pipeline),
        }
    }

    /// One tick's poll: look at the *next* stage's pipeline, advance exactly
    /// when it (and, past loading, the pre-update pass) reports ready, and
    /// stay put otherwise.
    pub fn update(&mut self, registry: &PipelineRegistry, pipeline: &GameWorldPipeline)
        requires
            pipeline.wf(*registry),
        ensures
            final(self).state == next_state(pipeline.snapshot(*registry), old(self).state),
    {
        let is_pre_update_ready = registry.status(pipeline.pre_update_pipeline).is_ok();
        match self.state {
            GameWorldState::Loading => {
                if registry.status(pipeline.init_pipeline).is_ok() {
                    self.state = GameWorldState::Init;
                }
            },
            GameWorldState::Init => {
                if registry.status(pipeline.update_gravity_pipeline).is_ok()
                    && is_pre_update_ready {
                    self.state = GameWorldState::UpdateGravity;
                }
            },
            GameWorldState::UpdateGravity => {
                if registry.status(pipeline.update_impulse_pipeline).is_ok()
                    && is_pre_update_ready {
                    self.state = GameWorldState::UpdateImpulse;
                }
            },
            GameWorldState::UpdateImpulse => {
                if registry.status(pipeline.update_position_pipeline).is_ok()
                    && is_pre_update_ready {
                    self.state = GameWorldState::UpdatePosition;
                }
            },
            GameWorldState::UpdatePosition => {
                if registry.status(pipeline.update_gravity_pipeline).is_ok()
                    && is_pre_update_ready {
                    self.state = GameWorldState::UpdateGravity;
                }
            },
        }
    }

    /// One tick's dispatches for the current stage: the pre-update pass
    /// first whenever the stage requires it, then the current stage's own
    /// pass, both over the full grid and against the frame's one bind
    /// group. A stage is only dispatched from readiness the per-tick poll
    /// established, so every recorded command names a compiled pipeline.
    pub fn run(
        &self,
        registry: &PipelineRegistry,
        pipeline: &GameWorldPipeline,
        geometry: &GridGeometry,
    ) -> (commands: Vec<DispatchCommand>)
        requires
            pipeline.wf(*registry),
            geometry.wf(),
            stage_ready(pipeline.snapshot(*registry), self.state),
        ensures
            commands@ == dispatch_plan(*pipeline, self.state, *geometry),
            forall|i: int|
                0 <= i < commands@.len() ==> registry.entries@[#[trigger] commands@[i].pipeline
                    as int].status is Ready,
    {
        let (count_x, count_y, count_z) = geometry.dispatch_counts();
        let counts = WorkgroupCounts { x: count_x, y: count_y, z: count_z };
        let mut commands: Vec<DispatchCommand> = Vec::new();
        if self.pre_update_required() {
            commands.push(
                DispatchCommand { pipeline: pipeline.pre_update_pipeline, workgroups: counts },
            );
        }
        let current = self.get_current_pipeline(pipeline);
        if let Some(handle) = current {
            commands.push(DispatchCommand { pipeline: handle, workgroups: counts });
        }
        proof {
            assert(commands@ =~= dispatch_plan(*pipeline, self.state, *geometry));
        }
        commands
    }
}

/// One frame in the host's fixed order: rebuild the bind group from the
/// buffer roles committed at the end of the previous frame, poll and advance
/// the stage, record the stage's dispatches against that bind group, and
/// swap the buffer roles strictly after the frame's dispatches whenever the
/// frame recorded work — so the next frame's bind group reads what this
/// frame wrote. Fails without touching anything exactly when the pipelines'
/// layout does not match the buffers' size.
pub fn advance_frame(
    node: &mut GameWorldNode,
    registry: &PipelineRegistry,
    pipeline: &GameWorldPipeline,
    data: &mut GameWorldData,
    geometry: &GridGeometry,
) -> (frame: Result<(GameWorldBindGroup, Vec<DispatchCommand>), BindGroupError>)
    requires
        pipeline.wf(*registry),
        geometry.wf(),
        stage_ready(pipeline.snapshot(*registry), old(node).state),
    ensures
        frame is Ok <==> is_world_layout(pipeline.world_bind_group_layout, old(data).data_size),
        frame is Err ==> *final(node) == *old(node) && *final(data) == *old(data),
        frame matches Ok((bind_group, commands)) ==> {
            &&& final(node).state == next_state(pipeline.snapshot(*registry), old(node).state)
            &&& is_bind_group_for(bind_group.0, *old(data))
            &&& commands@ == dispatch_plan(*pipeline, final(node).state, *geometry)
            &&& *final(data) == if commands@.len() == 0 {
                *old(data)
            } else {
                old(data).swapped()
            }
        },
{
    let bind_group = match prepare_bind_group(&pipeline.world_bind_group_layout, data) {
        Ok(bind_group) => bind_group,
        Err(mismatch) => {
            return Err(mismatch);
        },
    };
    node.update(registry, pipeline);
    proof {
        lemma_tick_preserves_stage_ready(pipeline.snapshot(*registry), old(node).state);
    }
    let commands = node.run(registry, pipeline, geometry);
    if commands.len() > 0 {
        data.swap();
    }
    Ok((bind_group, commands))
}

/// A tick never enters a stage whose pipeline has not finished compiling:
/// either the stage is unchanged, or the pipeline of the stage entered
/// reports ready. In particular a pending pipeline holds the orchestrator
/// where it is, whatever the other statuses are, so the guarantee covers
/// every interleaving of readiness arrivals.
pub proof fn lemma_never_advance_while_pending(statuses: StageStatuses, state: GameWorldState)
    ensures
        next_state(statuses, state) == state || next_stage_status(statuses, state) is Ready,
        next_stage_status(statuses, state) is Pending ==> next_state(statuses, state) == state,
{
}

/// Over any run of ticks — every interleaving of readiness arrivals — each
/// change of stage enters a stage whose own pipeline reported ready at the
/// tick of the change, never one still pending or failed.
pub proof fn lemma_no_tick_enters_unready_stage(
    state: GameWorldState,
    snapshots: Seq<StageStatuses>,
    i: int,
)
    requires
        0 <= i < snapshots.len(),
    ensures
        ({
            let before = state_after(state, snapshots.take(i));
            let after = state_after(state, snapshots.take(i + 1));
            after != before ==> stage_status(snapshots[i], after) is Ready
        }),
{
    assert(snapshots.take(i + 1) =~= snapshots.take(i).push(snapshots[i]));
    lemma_state_after_push(state, snapshots.take(i), snapshots[i]);
}

/// A tick preserves stage readiness: if the current stage's dispatches are
/// backed by ready pipelines, so are the next stage's after the poll, since
/// advancing demanded exactly that readiness.
pub proof fn lemma_tick_preserves_stage_ready(statuses: StageStatuses, state: GameWorldState)
    requires
        stage_ready(statuses, state),
    ensures
        stage_ready(statuses, next_state(statuses, state)),
{
}

/// Position of a stage in declaration order, before the cycle wraps.
pub open spec fn stage_index(state: GameWorldState) -> int {
    match state {
        GameWorldState::Loading => 0,
        GameWorldState::Init => 1,
        GameWorldState::UpdateGravity => 2,
        GameWorldState::UpdateImpulse => 3,
        GameWorldState::UpdatePosition => 4,
    }
}

/// Compilation status of the pipeline backing `state`'s own stage.
pub open spec fn stage_status(statuses: StageStatuses, state: GameWorldState) -> PipelineStatus
    recommends
        !(state is Loading),
{
    match state {
        GameWorldState::Loading => statuses.init,
        GameWorldState::Init => statuses.init,
        GameWorldState::UpdateGravity => statuses.update_gravity,
        GameWorldState::UpdateImpulse => statuses.update_impulse,
        GameWorldState::UpdatePosition => statuses.update_position,
    }
}

/// A failed compilation blocks for one tick: from any stage before the
/// failed one in declaration order, the orchestrator stays before it.
pub proof fn lemma_failed_stage_blocks_tick(
    statuses: StageStatuses,
    state: GameWorldState,
    blocked: GameWorldState,
)
    requires
        !(blocked is Loading),
        stage_status(statuses, blocked) is Failed,
        stage_index(state) < stage_index(blocked),
    ensures
        stage_index(next_state(statuses, state)) < stage_index(blocked),
{
}

/// A failed compilation blocks for good: while the pipeline of stage
/// `blocked` reports failed, any number of ticks from a stage before
/// `blocked` ends before `blocked`, so the orchestrator never advances past
/// the stage preceding the failed one.
pub proof fn lemma_failed_stage_blocks(
    state: GameWorldState,
    snapshots: Seq<StageStatuses>,
    blocked: GameWorldState,
)
    requires
        !(blocked is Loading),
        forall|i: int|
            0 <= i < snapshots.len() ==> stage_status(#[trigger] snapshots[i], blocked) is Failed,
        stage_index(state) < stage_index(blocked),
    ensures
        stage_index(state_after(state, snapshots)) < stage_index(blocked),
    decreases snapshots.len(),
{
    if snapshots.len() > 0 {
        lemma_failed_stage_blocks_tick(snapshots.first(), state, blocked);
        assert forall|i: int|
            0 <= i < snapshots.drop_first().len() implies stage_status(
            #[trigger] snapshots.drop_first()[i],
            blocked,
        ) is Failed by {
            assert(snapshots.drop_first()[i] == snapshots[i + 1]);
        }
        lemma_failed_stage_blocks(
            next_state(snapshots.first(), state),
            snapshots.drop_first(),
            blocked,
        );
    }
}

/// While a transition out of `state` never fires, the orchestrator stays in
/// `state` and keeps re-dispatching it: a never-ready pipeline is a
/// permanent, observable stall, not a crash.
pub proof fn lemma_stalls_until_ready(state: GameWorldState, snapshots: Seq<StageStatuses>)
    requires
        forall|i: int| 0 <= i < snapshots.len() ==> !advance_fires(#[trigger] snapshots[i], state),
    ensures
        state_after(state, snapshots) == state,
    decreases snapshots.len(),
{
    if snapshots.len() > 0 {
        assert forall|i: int| 0 <= i < snapshots.drop_first().len() implies !advance_fires(
            #[trigger] snapshots.drop_first()[i],
            state,
        ) by {
            assert(snapshots.drop_first()[i] == snapshots[i + 1]);
        }
        lemma_stalls_until_ready(state, snapshots.drop_first());
    }
}

/// Ticks compose: running over two runs of snapshots in turn is running
/// over their concatenation.
pub proof fn lemma_state_after_concat(
    state: GameWorldState,
    first_run: Seq<StageStatuses>,
    second_run: Seq<StageStatuses>,
)
    ensures
        state_after(state, first_run + second_run) == state_after(
            state_after(state, first_run),
            second_run,
        ),
    decreases first_run.len(),
{
    if first_run.len() == 0 {
        assert(first_run + second_run =~= second_run);
    } else {
        assert((first_run + second_run).drop_first() =~= first_run.drop_first() + second_run);
        lemma_state_after_concat(
            next_state(first_run.first(), state),
            first_run.drop_first(),
            second_run,
        );
    }
}

/// One more tick at the end of a run applies one more transition.
pub proof fn lemma_state_after_push(
    state: GameWorldState,
    snapshots: Seq<StageStatuses>,
    last: StageStatuses,
)
    ensures
        state_after(state, snapshots.push(last)) == next_state(
            last,
            state_after(state, snapshots),
        ),
    decreases snapshots.len(),
{
    reveal_with_fuel(state_after, 3);
    if snapshots.len() == 0 {
        assert(snapshots.push(last).first() == last);
        assert(snapshots.push(last).drop_first() =~= Seq::<StageStatuses>::empty());
    } else {
        assert(snapshots.push(last).first() == snapshots.first());
        assert(snapshots.push(last).drop_first() =~= snapshots.drop_first().push(last));
        lemma_state_after_push(next_state(snapshots.first(), state), snapshots.drop_first(), last);
        assert(state_after(state, snapshots.push(last)) == state_after(
            next_state(snapshots.first(), state),
            snapshots.drop_first().push(last),
        ));
        assert(state_after(state, snapshots) == state_after(
            next_state(snapshots.first(), state),
            snapshots.drop_first(),
        ));
    }
}

/// Every stage pipeline reports ready.
pub open spec fn all_ready(statuses: StageStatuses) -> bool {
    &&& statuses.init is Ready
    &&& statuses.pre_update is Ready
    &&& statuses.update_gravity is Ready
    &&& statuses.update_impulse is Ready
    &&& statuses.update_position is Ready
}

/// With every pipeline ready, each tick advances: out of loading, through
/// init, then round the physics cycle in fixed order.
pub proof fn lemma_ready_advances_in_order(statuses: StageStatuses)
    requires
        all_ready(statuses),
    ensures
        next_state(statuses, GameWorldState::Loading) is Init,
        next_state(statuses, GameWorldState::Init) is UpdateGravity,
        next_state(statuses, GameWorldState::UpdateGravity) is UpdateImpulse,
        next_state(statuses, GameWorldState::UpdateImpulse) is UpdatePosition,
        next_state(statuses, GameWorldState::UpdatePosition) is UpdateGravity,
{
}

/// The stage reached from `Loading` after a given number of all-ready
/// ticks: the loading and init stages once each, then the three physics
/// stages cyclically, forever.
pub open spec fn ready_tick_stage(ticks: nat) -> GameWorldState {
    if ticks == 0 {
        GameWorldState::Loading
    } else if ticks == 1 {
        GameWorldState::Init
    } else if (ticks - 2) % 3 == 0 {
        GameWorldState::UpdateGravity
    } else if (ticks - 2) % 3 == 1 {
        GameWorldState::UpdateImpulse
    } else {
        GameWorldState::UpdatePosition
    }
}

/// Starting from `Loading` with every pipeline ready at every tick, the
/// orchestrator's trajectory is exactly `ready_tick_stage`: it visits each
/// declared stage exactly once in order (ticks zero to four reach the five
/// stages in declaration order) and thereafter cycles through the three
/// physics stages in fixed order indefinitely, never revisiting `Loading`
/// or `Init`.
pub proof fn lemma_ready_visits_in_order_then_cycles(snapshots: Seq<StageStatuses>)
    requires
        forall|i: int| 0 <= i < snapshots.len() ==> all_ready(#[trigger] snapshots[i]),
    ensures
        state_after(GameWorldState::Loading, snapshots) == ready_tick_stage(snapshots.len()),
    decreases snapshots.len(),
{
    if snapshots.len() > 0 {
        let front = snapshots.drop_last();
        assert forall|i: int| 0 <= i < front.len() implies all_ready(#[trigger] front[i]) by {
            assert(front[i] == snapshots[i]);
        }
        lemma_ready_visits_in_order_then_cycles(front);
        lemma_state_after_push(GameWorldState::Loading, front, snapshots.last());
        assert(snapshots =~= front.push(snapshots.last()));
        lemma_ready_advances_in_order(snapshots.last());
        let ticks = snapshots.len();
        if ticks >= 3 {
            assert((ticks - 2) % 3 == ((ticks - 3) % 3 + 1) % 3) by {
                vstd::arithmetic::div_mod::lemma_add_mod_noop(ticks - 3, 1, 3);
                vstd::arithmetic::div_mod::lemma_mod_twice(1, 3);
                vstd::arithmetic::div_mod::lemma_mod_twice(ticks - 3, 3);
            }
        }
    }
}

/// Readiness that arrives late only delays the schedule: while the init
/// pipeline has not compiled the orchestrator idles in `Loading`, whatever
/// the other pipelines report meanwhile, and once every pipeline is ready
/// the startup-then-cycle trajectory follows as if nothing had been waited
/// for.
pub proof fn lemma_delayed_readiness_catches_up(
    waiting: Seq<StageStatuses>,
    ready: Seq<StageStatuses>,
)
    requires
        forall|i: int| 0 <= i < waiting.len() ==> !((#[trigger] waiting[i]).init is Ready),
        forall|i: int| 0 <= i < ready.len() ==> all_ready(#[trigger] ready[i]),
    ensures
        state_after(GameWorldState::Loading, waiting + ready) == ready_tick_stage(ready.len()),
{
    assert forall|i: int| 0 <= i < waiting.len() implies !advance_fires(
        #[trigger] waiting[i],
        GameWorldState::Loading,
    ) by {}
    lemma_stalls_until_ready(GameWorldState::Loading, waiting);
    lemma_state_after_concat(GameWorldState::Loading, waiting, ready);
    lemma_ready_visits_in_order_then_cycles(ready);
}

} // verus!
