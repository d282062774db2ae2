//! Deciding, for one shape, which shaders get an import path and which
//! fragment shader is generated for its pair of distance and fill shaders.
use vstd::prelude::*;

use crate::shader_id::{
    generated_import_path_avoiding, import_path_or_generated, is_random_uuid, underscored, uuid_hyphenated, GENERATED_PATH_PREFIX,
};
use crate::asset::ShaderPair;
use crate::shader_table::ShaderTable;
use crate::shaders::{generated_shader_source, generated_shader_text};

verus! {

/// What is known of one of a shape's shaders.
pub enum ShaderLoadState {
    /// The shader has not finished loading.
    NotLoaded,
    /// The shader is loaded; it may already have an import path of its own.
    Loaded {
        /// Its import path, if it has one.
        own_path: Option<String>,
    },
}

/// What to do for one shape's shader pair.
pub struct GenerationStep {
    /// The import path to give the distance shader, if it needs one.
    pub set_sdf_path: Option<String>,
    /// The import path to give the fill shader, if it needs one.
    pub set_fill_path: Option<String>,
    /// The source of the fragment shader to generate for the pair, once both
    /// shaders are loaded.
    pub source: Option<String>,
}

/// Whether `path` is a path generated for a shader without one.
pub open spec fn is_generated_path(path: Seq<char>) -> bool {
    exists|u: u128| is_random_uuid(u) && path == GENERATED_PATH_PREFIX@ + underscored(uuid_hyphenated(u))
}

/// The path chosen for a loaded shader: its own, or a generated one that must
/// then be given to it.
pub open spec fn path_choice(own: Option<String>, chosen: Seq<char>, set: Option<String>) -> bool {
    match own {
        Some(p) => chosen == p@ && set is None,
        None => is_generated_path(chosen) && (set matches Some(s) && s@ == chosen),
    }
}

/// Decides what to do for a shape with shader pair `pair`, given the
/// fragment shaders generated so far. Nothing happens for a pair already
/// generated or whose distance shader is still loading. Otherwise the
/// distance shader's path is chosen (and given to it if it had none). When
/// the fill is the very same asset, it now has that path, and the fragment
/// shader imports it twice. Else, if the fill is still loading that is all;
/// otherwise the fill's path is chosen the same way (a generated one never
/// being the distance shader's) and the fragment shader joining the two
/// paths is generated.
pub fn plan_shader_generation<H>(
    generated: &ShaderTable<H>,
    pair: ShaderPair,
    sdf: ShaderLoadState,
    fill: ShaderLoadState,
) -> (step: GenerationStep)
    ensures
        generated.map().contains_key(pair) ==> step.set_sdf_path is None && step.set_fill_path is None
            && step.source is None,
        sdf is NotLoaded ==> step.set_sdf_path is None && step.set_fill_path is None
            && step.source is None,
        pair.sdf != pair.fill && fill is NotLoaded ==> step.set_fill_path is None && step.source is None,
        pair.sdf != pair.fill && step.set_sdf_path is Some && step.set_fill_path is Some
            ==> step.set_sdf_path->0@ != step.set_fill_path->0@,
        !generated.map().contains_key(pair) ==> match sdf {
            ShaderLoadState::NotLoaded => true,
            ShaderLoadState::Loaded { own_path: sdf_own } => exists|sdf_path: Seq<char>|
                #[trigger] path_choice(sdf_own, sdf_path, step.set_sdf_path) && if pair.sdf
                    == pair.fill {
                    step.set_fill_path is None && (step.source matches Some(src) && src@
                        == generated_shader_text(sdf_path, sdf_path))
                } else {
                    match fill {
                        ShaderLoadState::NotLoaded => true,
                        ShaderLoadState::Loaded { own_path: fill_own } => exists|
                            fill_path: Seq<char>,
                        |
                            #[trigger] path_choice(fill_own, fill_path, step.set_fill_path) && (
                            fill_own is None ==> fill_path != sdf_path) && (step.source matches Some(
                                src,
                            ) && src@ == generated_shader_text(sdf_path, fill_path)),
                    }
                },
        },
{
    let nothing = GenerationStep { set_sdf_path: None, set_fill_path: None, source: None };
    if generated.contains(pair) {
        return nothing;
    }
    let sdf_own = match sdf {
        ShaderLoadState::NotLoaded => {
            return nothing;
        },
        ShaderLoadState::Loaded { own_path } => own_path,
    };
    let ghost sdf_own_g = sdf_own;
    let (sdf_path, sdf_set) = import_path_or_generated(sdf_own);
    let set_sdf_path = if sdf_set {
        Some(sdf_path.clone())
    } else {
        None
    };
    assert(path_choice(sdf_own_g, sdf_path@, set_sdf_path));
    if pair.sdf == pair.fill {
        // The fill is the same asset, which now has the distance shader's path.
        let source = generated_shader_source(sdf_path.as_str(), sdf_path.as_str());
        return GenerationStep { set_sdf_path, set_fill_path: None, source: Some(source) };
    }
    let fill_own = match fill {
        ShaderLoadState::NotLoaded => {
            return GenerationStep { set_sdf_path, set_fill_path: None, source: None };
        },
        ShaderLoadState::Loaded { own_path } => own_path,
    };
    let ghost fill_own_g = fill_own;
    // A fill without a path of its own gets a fresh one, never the distance
    // shader's: the two are different assets.
    let (fill_path, fill_set) = match fill_own {
        Some(p) => (p, false),
        None => (generated_import_path_avoiding(sdf_path.as_str()), true),
    };
    let set_fill_path = if fill_set {
        Some(fill_path.clone())
    } else {
        None
    };
    assert(path_choice(fill_own_g, fill_path@, set_fill_path));
    let source = generated_shader_source(sdf_path.as_str(), fill_path.as_str());
    GenerationStep { set_sdf_path, set_fill_path, source: Some(source) }
}

} // verus!
