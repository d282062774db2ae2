use bevy_smud::asset::{AssetKey, ShaderPair};
use bevy_smud::generation::{plan_shader_generation, ShaderLoadState};
use bevy_smud::shader_table::ShaderTable;
use bevy_smud::shader_id::{
    generate_shader_id, generated_import_path, import_path_or_generated, shader_id_from_uuid,
};
use bevy_smud::shaders::{
    fill_body_source, fill_expr_source, generated_shader_source, return_body, sdf_body_source,
    sdf_expr_source,
};

#[test]
fn sdf_expression_becomes_a_returning_body() {
    assert_eq!(return_body("x"), "return x;");
    assert_eq!(
        sdf_expr_source("sd_circle(p, 50.)"),
        "\n#import bevy_smud::shapes\nfn sdf(p: vec2<f32>, params: vec4<f32>) -> f32 {\n    return sd_circle(p, 50.);\n}\n"
    );
    assert_eq!(sdf_expr_source("a"), sdf_body_source("return a;"));
}

#[test]
fn fill_body_and_expression() {
    assert_eq!(
        fill_body_source("return color;"),
        "\nfn fill(d: f32, color: vec4<f32>) -> vec4<f32> {\n    return color;\n}\n"
    );
    assert_eq!(fill_expr_source("color"), fill_body_source("return color;"));
}

#[test]
fn generated_shader_imports_both_paths() {
    let src = generated_shader_source("my::sdf", "my::fill");
    assert!(src.starts_with("\n#ifdef TONEMAP_IN_SHADER\n#import bevy_core_pipeline::tonemapping\n#endif\n"));
    assert!(src.contains("#import my::sdf as sdf\n#import my::fill as fill\n"));
    assert!(src.contains("struct FragmentInput {\n    @location(0) color: vec4<f32>,"));
    assert!(src.contains("    let d = sdf::sdf(sdf_input);\n"));
    assert!(src.ends_with("    return color;\n}\n"));
    assert_eq!(src.matches('{').count(), src.matches('}').count());
}

#[test]
fn shader_id_is_the_underscored_uuid() {
    assert_eq!(
        shader_id_from_uuid(0x67e55044_10b1_426f_9247_bb680e5fe0c8),
        "67e55044_10b1_426f_9247_bb680e5fe0c8"
    );
    assert_eq!(shader_id_from_uuid(0), "00000000_0000_0000_0000_000000000000");
}

#[test]
fn generated_shader_ids_are_random_v4_uuids() {
    let a = generate_shader_id();
    let b = generate_shader_id();
    assert_ne!(a, b);
    for id in [a, b] {
        let chars: Vec<char> = id.chars().collect();
        assert_eq!(chars.len(), 36);
        for (i, c) in chars.iter().enumerate() {
            if [8, 13, 18, 23].contains(&i) {
                assert_eq!(*c, '_');
            } else {
                assert!(c.is_ascii_hexdigit() && !c.is_ascii_uppercase());
            }
        }
        assert_eq!(chars[14], '4');
        assert!(['8', '9', 'a', 'b'].contains(&chars[19]));
    }
}

#[test]
fn import_paths() {
    assert_eq!(generated_import_path("abc"), "smud::generated::abc");
    let (own, set) = import_path_or_generated(Some("shapes::circle".to_string()));
    assert_eq!(own, "shapes::circle");
    assert!(!set);
    let (fresh, set) = import_path_or_generated(None);
    assert!(set);
    assert!(fresh.starts_with("smud::generated::"));
    assert_eq!(fresh.len(), "smud::generated::".len() + 36);
}

fn pair(a: u64, b: u64) -> ShaderPair {
    ShaderPair { sdf: AssetKey::Index(a), fill: AssetKey::Index(b) }
}

#[test]
fn generation_waits_for_both_shaders() {
    let none: ShaderTable<u8> = ShaderTable::new();
    let mut done: ShaderTable<u8> = ShaderTable::new();
    done.insert(pair(1, 2), 7);

    let step = plan_shader_generation(
        &none,
        pair(1, 2),
        ShaderLoadState::NotLoaded,
        ShaderLoadState::Loaded { own_path: None },
    );
    assert!(step.set_sdf_path.is_none() && step.set_fill_path.is_none() && step.source.is_none());

    let step = plan_shader_generation(
        &none,
        pair(1, 2),
        ShaderLoadState::Loaded { own_path: None },
        ShaderLoadState::NotLoaded,
    );
    assert!(step.set_sdf_path.unwrap().starts_with("smud::generated::"));
    assert!(step.set_fill_path.is_none() && step.source.is_none());

    let step = plan_shader_generation(
        &done,
        pair(1, 2),
        ShaderLoadState::Loaded { own_path: None },
        ShaderLoadState::Loaded { own_path: None },
    );
    assert!(step.set_sdf_path.is_none() && step.set_fill_path.is_none() && step.source.is_none());
}

#[test]
fn generation_uses_own_and_fresh_paths() {
    let none: ShaderTable<u8> = ShaderTable::new();
    let step = plan_shader_generation(
        &none,
        pair(1, 2),
        ShaderLoadState::Loaded { own_path: Some("a::sdf".to_string()) },
        ShaderLoadState::Loaded { own_path: None },
    );
    assert!(step.set_sdf_path.is_none());
    let fill_path = step.set_fill_path.unwrap();
    assert!(fill_path.starts_with("smud::generated::"));
    assert_eq!(step.source.unwrap(), generated_shader_source("a::sdf", &fill_path));
}

#[test]
fn generation_for_another_pair_is_not_skipped() {
    let mut done: ShaderTable<u8> = ShaderTable::new();
    done.insert(pair(1, 2), 7);
    let step = plan_shader_generation(
        &done,
        pair(2, 1),
        ShaderLoadState::Loaded { own_path: Some("a::sdf".to_string()) },
        ShaderLoadState::Loaded { own_path: Some("b::fill".to_string()) },
    );
    assert!(step.set_sdf_path.is_none() && step.set_fill_path.is_none());
    assert_eq!(step.source.unwrap(), generated_shader_source("a::sdf", "b::fill"));
}

#[test]
fn same_asset_as_sdf_and_fill_gets_one_path() {
    let none: ShaderTable<u8> = ShaderTable::new();
    let step = plan_shader_generation(
        &none,
        pair(3, 3),
        ShaderLoadState::Loaded { own_path: None },
        ShaderLoadState::Loaded { own_path: None },
    );
    let path = step.set_sdf_path.unwrap();
    assert!(path.starts_with("smud::generated::"));
    assert!(step.set_fill_path.is_none());
    assert_eq!(step.source.unwrap(), generated_shader_source(&path, &path));

    let step = plan_shader_generation(
        &none,
        pair(3, 3),
        ShaderLoadState::Loaded { own_path: Some("own::both".to_string()) },
        ShaderLoadState::NotLoaded,
    );
    assert!(step.set_sdf_path.is_none() && step.set_fill_path.is_none());
    assert_eq!(step.source.unwrap(), generated_shader_source("own::both", "own::both"));
}
