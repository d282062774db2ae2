use bevy_smud::asset::{AssetKey, DEFAULT_FILL_UUID, SIMPLE_FILL_UUID};
use bevy_smud::picking::{
    blocks_lower, camera_can_pick, picked_shapes, shape_is_pickable, HitTest, PickableFlags,
    SmudPickingSettings,
};
use bevy_smud::primitives::{PrimitiveKind, CIRCLE_SDF_UUID, RECTANGLE_SDF_UUID};
use bevy_smud::visibility::record_visible_entities;
use fixedbitset::FixedBitSet;

const KINDS: [PrimitiveKind; 8] = [
    PrimitiveKind::Rectangle,
    PrimitiveKind::Circle,
    PrimitiveKind::Ellipse,
    PrimitiveKind::Annulus,
    PrimitiveKind::Capsule2d,
    PrimitiveKind::Rhombus,
    PrimitiveKind::CircularSector,
    PrimitiveKind::RegularPolygon,
];

#[test]
fn primitives_are_recognised_by_their_shader() {
    for k in KINDS {
        assert_eq!(PrimitiveKind::from_sdf_shader(k.sdf_shader()), Some(k));
    }
    assert_eq!(
        PrimitiveKind::Rectangle.sdf_shader(),
        AssetKey::Uuid(0x2289ee84_18da_4e35_87b2_e256fd88c092)
    );
    assert_eq!(RECTANGLE_SDF_UUID, 0x2289ee84_18da_4e35_87b2_e256fd88c092);
    assert_eq!(CIRCLE_SDF_UUID, 0xabb54e5e_62f3_4ea2_9604_84368bb6ae6d);
    assert_eq!(PrimitiveKind::from_sdf_shader(AssetKey::Index(3)), None);
    assert_eq!(PrimitiveKind::from_sdf_shader(AssetKey::Uuid(DEFAULT_FILL_UUID)), None);
    assert_eq!(PrimitiveKind::from_sdf_shader(AssetKey::Uuid(SIMPLE_FILL_UUID)), None);
}

#[test]
fn picking_settings_default_to_no_markers() {
    assert!(!SmudPickingSettings::default().require_markers);
}

#[test]
fn which_shapes_take_part() {
    let free = SmudPickingSettings { require_markers: false };
    let strict = SmudPickingSettings { require_markers: true };
    let hoverable = Some(PickableFlags { should_block_lower: true, is_hoverable: true });
    let hidden = Some(PickableFlags { should_block_lower: true, is_hoverable: false });
    assert!(shape_is_pickable(true, false, &free, None));
    assert!(!shape_is_pickable(false, false, &free, None));
    assert!(!shape_is_pickable(true, true, &free, None));
    assert!(!shape_is_pickable(true, false, &strict, None));
    assert!(shape_is_pickable(true, false, &strict, hoverable));
    assert!(!shape_is_pickable(true, false, &free, hidden));
}

#[test]
fn which_cameras_pick() {
    let free = SmudPickingSettings { require_markers: false };
    let strict = SmudPickingSettings { require_markers: true };
    assert!(camera_can_pick(true, false, &free));
    assert!(!camera_can_pick(false, true, &free));
    assert!(!camera_can_pick(true, false, &strict));
    assert!(camera_can_pick(true, true, &strict));
}

#[test]
fn a_blocking_hit_hides_the_shapes_behind() {
    assert!(blocks_lower(None));
    assert!(!blocks_lower(Some(PickableFlags { should_block_lower: false, is_hoverable: true })));
    let tests = vec![
        HitTest { hit: false, blocks: true },
        HitTest { hit: true, blocks: false },
        HitTest { hit: true, blocks: true },
        HitTest { hit: true, blocks: false },
    ];
    assert_eq!(picked_shapes(&tests), vec![1, 2]);
    let through = vec![HitTest { hit: true, blocks: false }, HitTest { hit: true, blocks: false }];
    assert_eq!(picked_shapes(&through), vec![0, 1]);
    assert!(picked_shapes(&vec![]).is_empty());
}

#[test]
fn visible_entities_replace_the_previous_set() {
    let mut set = FixedBitSet::with_capacity(4);
    set.insert(1);
    record_visible_entities(&mut set, &vec![3, 10, 3]);
    let ones: Vec<usize> = set.ones().collect();
    assert_eq!(ones, vec![3, 10]);
    assert!(set.len() >= 11);
}
