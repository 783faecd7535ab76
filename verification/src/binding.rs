//! The binding layout every stage pipeline compiles against, and the
//! per-frame bind group that wires the display surface and the two cell
//! buffers to that layout.
//!
//! Layout and bind group are a matched pair: a bind group is only built
//! against a layout of the expected world shape, and a mismatch aborts
//! construction rather than binding partially.

use vstd::prelude::*;

use crate::data::GameWorldData;

verus! {

/// What one slot of a binding layout accepts.
#[derive(Clone, Copy, Debug)]
pub enum BindingKind {
    /// A 2D image the shader reads and writes per pixel.
    StorageTexture,
    /// A storage buffer of at least `min_binding_size` bytes.
    StorageBuffer { min_binding_size: u64 },
}

/// One slot of a binding layout.
#[derive(Clone, Copy, Debug)]
pub struct BindGroupLayoutEntry {
    pub binding: u32,
    pub kind: BindingKind,
}

/// The declared shape a pipeline expects its inputs in.
#[derive(Debug)]
pub struct BindGroupLayout {
    pub entries: Vec<BindGroupLayoutEntry>,
}

/// The world layout: display surface at binding 0, previous-generation cell
/// buffer at binding 1 and next-generation cell buffer at binding 2, the two
/// buffers each at least `data_size` bytes.
pub open spec fn is_world_layout(layout: BindGroupLayout, data_size: u64) -> bool {
    &&& layout.entries@.len() == 3
    &&& layout.entries@[0] == (BindGroupLayoutEntry {
        binding: 0,
        kind: BindingKind::StorageTexture,
    })
    &&& layout.entries@[1] == (BindGroupLayoutEntry {
        binding: 1,
        kind: BindingKind::StorageBuffer { min_binding_size: data_size },
    })
    &&& layout.entries@[2] == (BindGroupLayoutEntry {
        binding: 2,
        kind: BindingKind::StorageBuffer { min_binding_size: data_size },
    })
}

/// Build the world layout for cell buffers of `data_size` bytes.
pub fn world_bind_group_layout(data_size: u64) -> (layout: BindGroupLayout)
    ensures
        is_world_layout(layout, data_size),
{
    let mut entries: Vec<BindGroupLayoutEntry> = Vec::new();
    entries.push(BindGroupLayoutEntry { binding: 0, kind: BindingKind::StorageTexture });
    entries.push(
        BindGroupLayoutEntry {
            binding: 1,
            kind: BindingKind::StorageBuffer { min_binding_size: data_size },
        },
    );
    entries.push(
        BindGroupLayoutEntry {
            binding: 2,
            kind: BindingKind::StorageBuffer { min_binding_size: data_size },
        },
    );
    BindGroupLayout { entries }
}

/// Decide whether `layout` has the world shape for buffers of `data_size`
/// bytes.
pub fn matches_world_layout(layout: &BindGroupLayout, data_size: u64) -> (r: bool)
    ensures
        r == is_world_layout(*layout, data_size),
{
    if layout.entries.len() != 3 {
        return false;
    }
    let e0 = &layout.entries[0];
    let e1 = &layout.entries[1];
    let e2 = &layout.entries[2];
    let slot0_ok = e0.binding == 0 && matches!(e0.kind, BindingKind::StorageTexture);
    let slot1_ok = e1.binding == 1 && match e1.kind {
        BindingKind::StorageBuffer { min_binding_size } => min_binding_size == data_size,
        _ => false,
    };
    let slot2_ok = e2.binding == 2 && match e2.kind {
        BindingKind::StorageBuffer { min_binding_size } => min_binding_size == data_size,
        _ => false,
    };
    slot0_ok && slot1_ok && slot2_ok
}

/// One resource wired to one binding slot.
#[derive(Clone, Copy, Debug, PartialEq, Eq, Structural)]
pub struct BindGroupEntry {
    pub binding: u32,
    pub resource: u64,
}

/// A concrete set of resources wired to a binding layout for one frame's
/// dispatches.
#[derive(Debug)]
pub struct BindGroup {
    pub entries: Vec<BindGroupEntry>,
}

/// The world bind group over `data`'s current buffer roles: display surface
/// at binding 0, the committed previous buffer at binding 1 and the write
/// target at binding 2.
pub open spec fn is_bind_group_for(group: BindGroup, data: GameWorldData) -> bool {
    &&& group.entries@.len() == 3
    &&& group.entries@[0] == (BindGroupEntry { binding: 0, resource: data.image })
    &&& group.entries@[1] == (BindGroupEntry { binding: 1, resource: data.data_prev })
    &&& group.entries@[2] == (BindGroupEntry { binding: 2, resource: data.data_next })
}

/// The bind group resource handed to each dispatch of one frame.
#[derive(Debug)]
pub struct GameWorldBindGroup(pub BindGroup);

impl From<BindGroup> for GameWorldBindGroup {
    fn from(bind_group: BindGroup) -> (r: Self) {
        GameWorldBindGroup(bind_group)
    }
}

impl vstd::std_specs::convert::FromSpecImpl<BindGroup> for GameWorldBindGroup {
    open spec fn obeys_from_spec() -> bool {
        true
    }

    open spec fn from_spec(bind_group: BindGroup) -> Self {
        GameWorldBindGroup(bind_group)
    }
}

/// A bind group built against a layout that does not match the pipelines'
/// expected layout is a programming error: construction is refused whole.
#[derive(Clone, Copy, Debug, PartialEq, Eq, Structural)]
pub enum BindGroupError {
    LayoutMismatch,
}

/// Build the frame's bind group from the current buffer roles, against the
/// given layout. Succeeds exactly when the layout has the world shape for
/// `data`'s buffer size; a stale group from before a swap is never patched,
/// the caller rebuilds after every role change.
pub fn prepare_bind_group(layout: &BindGroupLayout, data: &GameWorldData) -> (r: Result<
    GameWorldBindGroup,
    BindGroupError,
>)
    ensures
        r is Ok <==> is_world_layout(*layout, data.data_size),
        r matches Ok(group) ==> is_bind_group_for(group.0, *data),
        r matches Err(e) ==> e == BindGroupError::LayoutMismatch,
{
    if !matches_world_layout(layout, data.data_size) {
        return Err(BindGroupError::LayoutMismatch);
    }
    let mut entries: Vec<BindGroupEntry> = Vec::new();
    entries.push(BindGroupEntry { binding: 0, resource: data.image });
    entries.push(BindGroupEntry { binding: 1, resource: data.data_prev });
    entries.push(BindGroupEntry { binding: 2, resource: data.data_next });
    Ok(GameWorldBindGroup::from(BindGroup { entries }))
}

} // verus!
