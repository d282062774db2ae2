use vstd::prelude::*;

verus! {

/// Blend mode for shapes.
#[derive(Clone, Copy, Debug, PartialEq, Eq, Structural, Hash)]
pub enum BlendMode {
    /// Standard alpha blending.
    Alpha,
    /// Additive blending (colours are added together).
    Additive,
}

impl Default for BlendMode {
    /// Alpha blending is the default.
    fn default() -> (mode: Self)
        ensures
            mode == BlendMode::Alpha,
    {
        BlendMode::Alpha
    }
}

} // verus!
