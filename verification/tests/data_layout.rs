use voxel_physics::binding::{
    matches_world_layout, prepare_bind_group, world_bind_group_layout, BindGroupError,
    BindingKind,
};
use voxel_physics::cell::{initial_buffer_bytes, initial_world_words, CellData, Vec2Bits};
use voxel_physics::data::GameWorldData;
use voxel_physics::geometry::GridGeometry;
use voxel_physics::{WORKGROUP_SIZE, WORLD_HEIGHT, WORLD_WIDTH};

#[test]
fn dispatch_counts_divide_reference_world() {
    let geometry = GridGeometry {
        width: WORLD_WIDTH,
        height: WORLD_HEIGHT,
        tile_width: WORKGROUP_SIZE,
        tile_height: WORKGROUP_SIZE,
    };
    assert_eq!(geometry.dispatch_counts(), (128, 128, 1));
}

#[test]
fn dispatch_counts_round_up_when_not_divisible() {
    let geometry = GridGeometry { width: 10, height: 17, tile_width: 3, tile_height: 8 };
    assert_eq!(geometry.dispatch_counts(), (4, 3, 1));
}

#[test]
fn dispatch_counts_edge_extents() {
    let empty = GridGeometry { width: 0, height: 0, tile_width: 8, tile_height: 8 };
    assert_eq!(empty.dispatch_counts(), (0, 0, 1));
    let one_cell_tiles = GridGeometry { width: 7, height: 7, tile_width: 1, tile_height: 1 };
    assert_eq!(one_cell_tiles.dispatch_counts(), (7, 7, 1));
    let max_extent = GridGeometry {
        width: u32::MAX,
        height: u32::MAX,
        tile_width: 1,
        tile_height: u32::MAX,
    };
    assert_eq!(max_extent.dispatch_counts(), (u32::MAX, 1, 1));
}

#[test]
fn world_data_size_counts_thirty_six_bytes_per_cell() {
    assert_eq!(CellData::get_world_data_size((2, 3)), 216);
    assert_eq!(
        CellData::get_world_data_size((WORLD_WIDTH, WORLD_HEIGHT)),
        1024 * 1024 * 36
    );
    assert_eq!(CellData::get_world_data_size((0, 1024)), 0);
}

#[test]
fn default_cell_is_all_zero_words() {
    let cell = CellData::default();
    assert_eq!(cell.to_words(), vec![0u32; 9]);
    assert_eq!(cell.mass, 0);
    assert_eq!(cell.impulse, Vec2Bits { x: 0, y: 0 });
}

#[test]
fn cell_words_follow_declared_order() {
    let cell = CellData {
        to_gravity_source: Vec2Bits { x: 1, y: 2 },
        gravity_strength: 3,
        particle_type: 4,
        mass: 5,
        impulse: Vec2Bits { x: 6, y: 7 },
        relative_pos: Vec2Bits { x: 8, y: 9 },
    };
    assert_eq!(cell.to_words(), vec![1, 2, 3, 4, 5, 6, 7, 8, 9]);
}

#[test]
fn initial_buffer_is_zero_filled_and_sized_per_layout() {
    let words = initial_world_words(5);
    assert_eq!(words.len(), 45);
    assert!(words.iter().all(|w| *w == 0));

    let bytes = initial_buffer_bytes(5);
    assert_eq!(bytes.len(), 180);
    assert!(bytes.iter().all(|b| *b == 0));

    // The default record's bytes agree with reinterpreting its words
    // directly.
    let direct: Vec<u8> = bytemuck::cast_slice::<u32, u8>(&CellData::default().to_words()).to_vec();
    assert_eq!(direct, vec![0u8; 36]);
    assert_eq!(&bytes[0..36], &direct[..]);
}

#[test]
fn swap_exchanges_roles_and_is_involutive() {
    let mut data = GameWorldData::new(10, 20, 30, 216);
    assert_eq!((data.data_prev, data.data_next), (20, 30));
    data.swap();
    assert_eq!((data.data_prev, data.data_next), (30, 20));
    assert_eq!(data.image, 10);
    assert_eq!(data.data_size, 216);
    data.swap();
    assert_eq!(data, GameWorldData::new(10, 20, 30, 216));
}

#[test]
fn world_layout_has_three_matched_slots() {
    let layout = world_bind_group_layout(216);
    assert_eq!(layout.entries.len(), 3);
    assert_eq!(layout.entries[0].binding, 0);
    assert!(matches!(layout.entries[0].kind, BindingKind::StorageTexture));
    for slot in 1..3 {
        assert_eq!(layout.entries[slot].binding, slot as u32);
        match layout.entries[slot].kind {
            BindingKind::StorageBuffer { min_binding_size } => assert_eq!(min_binding_size, 216),
            _ => panic!("cell buffer slot must be a storage buffer"),
        }
    }
    assert!(matches_world_layout(&layout, 216));
    assert!(!matches_world_layout(&layout, 215));
}

#[test]
fn bind_group_wires_surface_and_both_generations() {
    let layout = world_bind_group_layout(216);
    let data = GameWorldData::new(10, 20, 30, 216);
    let group = prepare_bind_group(&layout, &data).unwrap();
    let entries = &group.0.entries;
    assert_eq!(entries.len(), 3);
    assert_eq!((entries[0].binding, entries[0].resource), (0, 10));
    assert_eq!((entries[1].binding, entries[1].resource), (1, 20));
    assert_eq!((entries[2].binding, entries[2].resource), (2, 30));
}

#[test]
fn bind_group_refuses_mismatched_layout() {
    let layout = world_bind_group_layout(100);
    let data = GameWorldData::new(10, 20, 30, 216);
    assert_eq!(
        prepare_bind_group(&layout, &data).unwrap_err(),
        BindGroupError::LayoutMismatch
    );
}

#[test]
fn bind_group_must_be_rebuilt_after_swap() {
    let layout = world_bind_group_layout(216);
    let mut data = GameWorldData::new(10, 20, 30, 216);
    let stale = prepare_bind_group(&layout, &data).unwrap();
    data.swap();
    let fresh = prepare_bind_group(&layout, &data).unwrap();
    assert_eq!(stale.0.entries[1].resource, 20);
    assert_eq!(fresh.0.entries[1].resource, 30);
    assert_ne!(stale.0.entries[1], fresh.0.entries[1]);
}
