use bevy_smud::asset::{AssetKey, ShaderPair};
use bevy_smud::components::BlendMode;
use bevy_smud::pipeline_key::{PipelineKey, BLEND_ADDITIVE, HDR};
use bevy_smud::shader_table::{queued_pipeline_key, ShaderTable};

fn pair(a: u64, b: u64) -> ShaderPair {
    ShaderPair { sdf: AssetKey::Index(a), fill: AssetKey::Index(b) }
}

#[test]
fn generated_shaders_are_found_by_pair() {
    let mut table: ShaderTable<String> = ShaderTable::new();
    assert!(!table.contains(pair(1, 2)));
    assert_eq!(table.get(pair(1, 2)), None);
    table.insert(pair(1, 2), "a".to_string());
    table.insert(pair(3, 4), "b".to_string());
    assert!(table.contains(pair(1, 2)));
    assert_eq!(table.get(pair(3, 4)), Some(&"b".to_string()));
    table.insert(pair(1, 2), "c".to_string());
    assert_eq!(table.get(pair(1, 2)), Some(&"c".to_string()));
    assert!(!table.contains(pair(2, 1)));
}

#[test]
fn shapes_wait_for_their_generated_shader() {
    let mut table: ShaderTable<u8> = ShaderTable::new();
    let view = PipelineKey::from_bits_retain(HDR);
    assert!(queued_pipeline_key(&table, view, true, pair(1, 2), BlendMode::Additive).is_none());
    table.insert(pair(1, 2), 0);
    let key = queued_pipeline_key(&table, view, true, pair(1, 2), BlendMode::Additive).unwrap();
    assert_eq!(key.mesh.bits, HDR | BLEND_ADDITIVE);
    assert_eq!(key.shader, pair(1, 2));
    assert!(key.hdr);
}
