//! Signed-distance-field shape rendering: the decisions behind the render
//! pipeline (pipeline keys, shader specialisation, batching), the generated
//! shader sources, primitive shape lookup, picking rules and the editor's state.
use vstd::prelude::*;

pub mod components;
pub mod editor;
pub mod generation;
pub mod asset;
pub mod batching;
pub mod picking;
pub mod pipeline_key;
pub mod pipeline_spec;
pub mod primitives;
pub mod shader_id;
pub mod shader_table;
pub mod shaders;
pub mod text;
pub mod visibility;

pub use components::BlendMode;

verus! {

} // verus!
