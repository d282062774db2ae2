use bevy_smud::asset::{AssetKey, ShaderPair, INVALID_ASSET_UUID};
use bevy_smud::batching::{
    count_shapes, is_batchable, plan_batches, try_plan_batches, PhaseItemRef, ShapeBatch, ShapeRef,
};

fn pair(a: u64, b: u64) -> ShaderPair {
    ShaderPair { sdf: AssetKey::Index(a), fill: AssetKey::Index(b) }
}

fn invalid() -> ShaderPair {
    ShaderPair::invalid()
}

#[test]
fn invalid_pair_is_the_reserved_uuid() {
    assert_eq!(invalid().sdf, AssetKey::Uuid(INVALID_ASSET_UUID));
    assert_eq!(AssetKey::invalid(), AssetKey::Uuid(108428345662029828789348721013522787528));
}

#[test]
fn every_shape_with_shaders_opens_its_own_batch() {
    let shapes = vec![
        ShapeRef { render_entity: 10, shader: pair(1, 2) },
        ShapeRef { render_entity: 11, shader: pair(1, 2) },
        ShapeRef { render_entity: 12, shader: pair(3, 4) },
    ];
    let items = vec![
        PhaseItemRef { extracted_index: 0, entity: 10 },
        PhaseItemRef { extracted_index: 1, entity: 11 },
        PhaseItemRef { extracted_index: 2, entity: 12 },
    ];
    let plan = plan_batches(&items, &shapes, 5);
    assert_eq!(
        plan.batches,
        vec![
            ShapeBatch { item_index: 0, shader: pair(1, 2), start: 5, end: 6 },
            ShapeBatch { item_index: 1, shader: pair(1, 2), start: 6, end: 7 },
            ShapeBatch { item_index: 2, shader: pair(3, 4), start: 7, end: 8 },
        ]
    );
    assert_eq!(plan.vertex_sources, vec![0, 1, 2]);
    assert_eq!(plan.next_index, 8);
}

#[test]
fn items_that_are_not_shapes_are_skipped() {
    let shapes = vec![
        ShapeRef { render_entity: 10, shader: pair(1, 2) },
        ShapeRef { render_entity: 11, shader: pair(3, 4) },
    ];
    let items = vec![
        // out of range
        PhaseItemRef { extracted_index: 7, entity: 10 },
        PhaseItemRef { extracted_index: 1, entity: 11 },
        // entity mismatch
        PhaseItemRef { extracted_index: 0, entity: 99 },
        PhaseItemRef { extracted_index: 0, entity: 10 },
    ];
    assert_eq!(count_shapes(&items, &shapes), 2);
    let plan = plan_batches(&items, &shapes, 0);
    assert_eq!(
        plan.batches,
        vec![
            ShapeBatch { item_index: 1, shader: pair(3, 4), start: 0, end: 1 },
            ShapeBatch { item_index: 3, shader: pair(1, 2), start: 1, end: 2 },
        ]
    );
    assert_eq!(plan.vertex_sources, vec![1, 0]);
    assert_eq!(plan.next_index, 2);
}

#[test]
fn a_shape_without_shaders_joins_the_last_batch() {
    let shapes = vec![
        ShapeRef { render_entity: 1, shader: pair(1, 2) },
        ShapeRef { render_entity: 2, shader: invalid() },
        ShapeRef { render_entity: 3, shader: invalid() },
    ];
    let items = vec![
        PhaseItemRef { extracted_index: 0, entity: 1 },
        PhaseItemRef { extracted_index: 1, entity: 2 },
        PhaseItemRef { extracted_index: 5, entity: 0 },
        PhaseItemRef { extracted_index: 2, entity: 3 },
    ];
    assert!(is_batchable(&items, &shapes));
    let plan = plan_batches(&items, &shapes, 0);
    assert_eq!(plan.batches, vec![ShapeBatch { item_index: 0, shader: pair(1, 2), start: 0, end: 3 }]);
    assert_eq!(plan.next_index, 3);
}

#[test]
fn a_shape_without_shaders_first_cannot_be_batched() {
    let shapes = vec![
        ShapeRef { render_entity: 1, shader: invalid() },
        ShapeRef { render_entity: 2, shader: pair(1, 2) },
    ];
    let items = vec![
        PhaseItemRef { extracted_index: 0, entity: 1 },
        PhaseItemRef { extracted_index: 1, entity: 2 },
    ];
    assert!(!is_batchable(&items, &shapes));
    assert!(try_plan_batches(&items, &shapes, 0).is_none());
}

#[test]
fn too_many_instances_cannot_be_numbered() {
    let shapes = vec![ShapeRef { render_entity: 1, shader: pair(1, 2) }];
    let items = vec![
        PhaseItemRef { extracted_index: 0, entity: 1 },
        PhaseItemRef { extracted_index: 0, entity: 1 },
    ];
    assert!(try_plan_batches(&items, &shapes, u32::MAX - 1).is_none());
    let plan = try_plan_batches(&items, &shapes, u32::MAX - 2).unwrap();
    assert_eq!(plan.next_index, u32::MAX);
    assert_eq!(plan.batches.len(), 2);
}

#[test]
fn empty_view_has_no_batches() {
    let plan = try_plan_batches(&vec![], &vec![], 17).unwrap();
    assert!(plan.batches.is_empty());
    assert!(plan.vertex_sources.is_empty());
    assert_eq!(plan.next_index, 17);
}
