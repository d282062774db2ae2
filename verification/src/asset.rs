//! Identifiers of shader assets, as plain values.
use vstd::prelude::*;

verus! {

/// UUID of the shared WGSL library of shapes and helpers (`smud`).
pub const SMUD_SHADER_UUID: u128 = 0xeca0ed31_c377_41be_94a8_55154ecb0810;
/// UUID of the WGSL view bindings shader.
pub const VIEW_BINDINGS_SHADER_UUID: u128 = 0xf973016d_a9cc_469a_afb6_64ad829cd838;
/// UUID of the vertex shader shared by all shapes.
pub const VERTEX_SHADER_UUID: u128 = 0x27b9d87f_6a69_49ee_a2e8_c0bc08ee4f61;
/// UUID of the default fill used by shapes (a cubic falloff).
pub const DEFAULT_FILL_UUID: u128 = 0x30981e86_7600_4089_b4e7_992601dc96b4;
/// UUID of the simple single-coloured fill.
pub const SIMPLE_FILL_UUID: u128 = 0xcef2d2c2_1a68_4418_a815_5a8ac361f140;

/// The UUID that no asset is ever registered under; it stands for "no shader".
pub const INVALID_ASSET_UUID: u128 = 108428345662029828789348721013522787528;

/// Identifier of an asset: a runtime index, or a UUID fixed at compile time.
#[derive(Clone, Copy, Debug, PartialEq, Eq, Structural, Hash)]
pub enum AssetKey {
    /// A runtime index (generation and slot packed into 64 bits).
    Index(u64),
    /// A stable UUID.
    Uuid(u128),
}

/// The identifier that stands for "no asset".
pub open spec fn invalid_asset() -> AssetKey {
    AssetKey::Uuid(INVALID_ASSET_UUID)
}

impl AssetKey {
    /// The identifier that stands for "no asset".
    pub fn invalid() -> (key: AssetKey)
        ensures
            key == invalid_asset(),
    {
        AssetKey::Uuid(INVALID_ASSET_UUID)
    }
}

/// The pair of shaders that make up a shape: its distance function and its fill.
#[derive(Clone, Copy, Debug, PartialEq, Eq, Structural, Hash)]
pub struct ShaderPair {
    /// The signed distance function.
    pub sdf: AssetKey,
    /// The fill.
    pub fill: AssetKey,
}

/// The pair that stands for "no shaders".
pub open spec fn invalid_pair() -> ShaderPair {
    ShaderPair { sdf: invalid_asset(), fill: invalid_asset() }
}

impl ShaderPair {
    /// The pair that stands for "no shaders".
    pub fn invalid() -> (pair: ShaderPair)
        ensures
            pair == invalid_pair(),
    {
        ShaderPair { sdf: AssetKey::invalid(), fill: AssetKey::invalid() }
    }
}

} // verus!
