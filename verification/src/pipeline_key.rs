//! The packed 32-bit key that selects a specialised render pipeline.
//!
//! Low bits are single flags; three 3-bit fields sit at the top of the word:
//! the log2 of the MSAA sample count (bits 29..32), the primitive topology
//! (bits 26..29) and the tonemapping method (bits 23..26).
use vstd::prelude::*;
use vstd::std_specs::bits::{u32_trailing_zeros, axiom_u32_trailing_zeros};

use crate::components::BlendMode;

verus! {

/// Width mask of the MSAA field (log2 of the sample count).
pub const MSAA_MASK_BITS: u32 = 0b111;
/// Position of the MSAA field: 32 minus the width of its mask.
pub const MSAA_SHIFT_BITS: u32 = 29;
/// Width mask of the primitive topology field.
pub const PRIMITIVE_TOPOLOGY_MASK_BITS: u32 = 0b111;
/// Position of the primitive topology field, just below the MSAA field.
pub const PRIMITIVE_TOPOLOGY_SHIFT_BITS: u32 = 26;
/// Width mask of the tonemapping method field.
pub const TONEMAP_METHOD_MASK_BITS: u32 = 0b111;
/// Position of the tonemapping method field, just below the topology field.
pub const TONEMAP_METHOD_SHIFT_BITS: u32 = 23;

/// How vertices are assembled into primitives.
#[derive(Clone, Copy, Debug, PartialEq, Eq, Structural)]
pub enum PrimitiveTopology {
    /// Each vertex is a point.
    PointList,
    /// Each pair of vertices is a line.
    LineList,
    /// Each two adjacent vertices form a line.
    LineStrip,
    /// Each three vertices form a triangle.
    TriangleList,
    /// Each three adjacent vertices form a triangle.
    TriangleStrip,
}

/// The numeric code of a topology (its discriminant).
pub open spec fn topology_code(t: PrimitiveTopology) -> u32 {
    match t {
        PrimitiveTopology::PointList => 0,
        PrimitiveTopology::LineList => 1,
        PrimitiveTopology::LineStrip => 2,
        PrimitiveTopology::TriangleList => 3,
        PrimitiveTopology::TriangleStrip => 4,
    }
}

/// The topology with a given code; codes with no topology give the default,
/// `TriangleList`.
pub open spec fn topology_of_code(code: u32) -> PrimitiveTopology {
    if code == 0 {
        PrimitiveTopology::PointList
    } else if code == 1 {
        PrimitiveTopology::LineList
    } else if code == 2 {
        PrimitiveTopology::LineStrip
    } else if code == 4 {
        PrimitiveTopology::TriangleStrip
    } else {
        PrimitiveTopology::TriangleList
    }
}

impl PrimitiveTopology {
    /// The numeric code of this topology.
    pub fn code(&self) -> (c: u32)
        ensures
            c == topology_code(*self),
    {
        match self {
            PrimitiveTopology::PointList => 0,
            PrimitiveTopology::LineList => 1,
            PrimitiveTopology::LineStrip => 2,
            PrimitiveTopology::TriangleList => 3,
            PrimitiveTopology::TriangleStrip => 4,
        }
    }
}

impl Default for PrimitiveTopology {
    /// Triangle lists are the default topology.
    fn default() -> (t: Self)
        ensures
            t == PrimitiveTopology::TriangleList,
    {
        PrimitiveTopology::TriangleList
    }
}

/// Tonemapping method applied to a camera's output.
#[derive(Clone, Copy, Debug, PartialEq, Eq, Structural)]
pub enum Tonemapping {
    /// Bypass tonemapping.
    Bypass,
    /// Reinhard.
    Reinhard,
    /// Reinhard on luminance.
    ReinhardLuminance,
    /// ACES fitted.
    AcesFitted,
    /// AgX.
    AgX,
    /// Somewhat boring display transform.
    SomewhatBoringDisplayTransform,
    /// Tony McMapface.
    TonyMcMapface,
    /// Blender filmic.
    BlenderFilmic,
}

/// Whether a camera dithers its output to avoid banding.
#[derive(Clone, Copy, Debug, PartialEq, Eq, Structural)]
pub enum DebandDither {
    /// No dithering.
    Disabled,
    /// Dithering.
    Enabled,
}

/// The 3-bit code of a tonemapping method inside a pipeline key.
pub open spec fn tonemap_code(t: Tonemapping) -> u32 {
    match t {
        Tonemapping::Bypass => 0,
        Tonemapping::Reinhard => 1,
        Tonemapping::ReinhardLuminance => 2,
        Tonemapping::AcesFitted => 3,
        Tonemapping::AgX => 4,
        Tonemapping::SomewhatBoringDisplayTransform => 5,
        Tonemapping::TonyMcMapface => 6,
        Tonemapping::BlenderFilmic => 7,
    }
}

/// The tonemapping method with a given 3-bit code.
pub open spec fn tonemap_of_code(code: u32) -> Tonemapping {
    if code == 0 {
        Tonemapping::Bypass
    } else if code == 1 {
        Tonemapping::Reinhard
    } else if code == 2 {
        Tonemapping::ReinhardLuminance
    } else if code == 3 {
        Tonemapping::AcesFitted
    } else if code == 4 {
        Tonemapping::AgX
    } else if code == 5 {
        Tonemapping::SomewhatBoringDisplayTransform
    } else if code == 6 {
        Tonemapping::TonyMcMapface
    } else {
        Tonemapping::BlenderFilmic
    }
}

/// Bits of the key built from an MSAA sample count: the count's number of
/// trailing zeros, cut to three bits, placed in the MSAA field.
pub open spec fn msaa_key_bits(samples: u32) -> u32 {
    (u32_trailing_zeros(samples) & MSAA_MASK_BITS) << MSAA_SHIFT_BITS
}

/// The MSAA sample count a key stands for: two to the power of its MSAA field.
pub open spec fn msaa_of_bits(bits: u32) -> u32 {
    1u32 << ((bits >> MSAA_SHIFT_BITS) & MSAA_MASK_BITS)
}

/// Bits of the key built from a primitive topology.
pub open spec fn topology_key_bits(t: PrimitiveTopology) -> u32 {
    (topology_code(t) & PRIMITIVE_TOPOLOGY_MASK_BITS) << PRIMITIVE_TOPOLOGY_SHIFT_BITS
}

/// The primitive topology a key stands for.
pub open spec fn topology_of_bits(bits: u32) -> PrimitiveTopology {
    topology_of_code((bits >> PRIMITIVE_TOPOLOGY_SHIFT_BITS) & PRIMITIVE_TOPOLOGY_MASK_BITS)
}

/// Bits of the key built from a tonemapping method.
pub open spec fn tonemap_key_bits(t: Tonemapping) -> u32 {
    tonemap_code(t) << TONEMAP_METHOD_SHIFT_BITS
}

/// The tonemapping method a key stands for.
pub open spec fn tonemap_of_bits(bits: u32) -> Tonemapping {
    tonemap_of_code((bits >> TONEMAP_METHOD_SHIFT_BITS) & TONEMAP_METHOD_MASK_BITS)
}

/// Bits of the key built from a blend mode.
pub open spec fn blend_key_bits(mode: BlendMode) -> u32 {
    match mode {
        BlendMode::Alpha => 0,
        BlendMode::Additive => 8,
    }
}

/// No flag set.
pub const NONE: u32 = 0;
/// The view renders to an HDR target.
pub const HDR: u32 = 1;
/// Tonemapping happens in the shape's shader.
pub const TONEMAP_IN_SHADER: u32 = 2;
/// Deband dithering happens in the shape's shader.
pub const DEBAND_DITHER: u32 = 4;
/// Colours are added rather than alpha blended.
pub const BLEND_ADDITIVE: u32 = 8;
/// The shader may discard fragments.
pub const MAY_DISCARD: u32 = 16;
/// All bits of the MSAA field.
pub const MSAA_RESERVED_BITS: u32 = 0xE000_0000;
/// All bits of the primitive topology field.
pub const PRIMITIVE_TOPOLOGY_RESERVED_BITS: u32 = 0x1C00_0000;
/// All bits of the tonemapping method field.
pub const TONEMAP_METHOD_RESERVED_BITS: u32 = 0x0380_0000;

/// Set of pipeline flags and packed fields.
#[derive(Clone, Copy, Debug, PartialEq, Eq, Structural, Hash)]
pub struct PipelineKey {
    /// The raw bits of the key.
    pub bits: u32,
}

impl PipelineKey {
    /// The key with exactly the given bits.
    pub fn from_bits_retain(bits: u32) -> (key: Self)
        ensures
            key.bits == bits,
    {
        PipelineKey { bits }
    }

    /// The raw bits of the key.
    pub fn bits(&self) -> (b: u32)
        ensures
            b == self.bits,
    {
        self.bits
    }

    /// Whether every bit of `other` is set in `self`.
    pub fn contains(&self, other: PipelineKey) -> (r: bool)
        ensures
            r == (self.bits & other.bits == other.bits),
    {
        self.bits & other.bits == other.bits
    }

    /// The bits set in both keys.
    pub fn intersection(self, other: PipelineKey) -> (key: Self)
        ensures
            key.bits == self.bits & other.bits,
    {
        PipelineKey { bits: self.bits & other.bits }
    }

    /// The bits set in either key.
    pub fn union(self, other: PipelineKey) -> (key: Self)
        ensures
            key.bits == self.bits | other.bits,
    {
        PipelineKey { bits: self.bits | other.bits }
    }

    /// The key carrying the MSAA sample count (its log2, in three bits).
    pub fn from_msaa_samples(msaa_samples: u32) -> (key: Self)
        ensures
            key.bits == msaa_key_bits(msaa_samples),
    {
        let msaa_bits = (msaa_samples.trailing_zeros() & MSAA_MASK_BITS) << MSAA_SHIFT_BITS;
        PipelineKey::from_bits_retain(msaa_bits)
    }

    /// `HDR` if the view is HDR, else no flag.
    pub fn from_hdr(hdr: bool) -> (key: Self)
        ensures
            key.bits == (if hdr { 1u32 } else { 0u32 }),
    {
        if hdr {
            PipelineKey::from_bits_retain(HDR)
        } else {
            PipelineKey::from_bits_retain(NONE)
        }
    }

    /// The MSAA sample count stored in the key.
    pub fn msaa_samples(&self) -> (samples: u32)
        ensures
            samples == msaa_of_bits(self.bits),
    {
        let raw = self.bits;
        let field = (raw >> MSAA_SHIFT_BITS) & MSAA_MASK_BITS;
        assert(field < 8) by (bit_vector)
            requires
                field == (raw >> 29u32) & 7u32,
        ;
        1u32 << field
    }

    /// The key carrying a primitive topology.
    pub fn from_primitive_topology(primitive_topology: PrimitiveTopology) -> (key: Self)
        ensures
            key.bits == topology_key_bits(primitive_topology),
    {
        let primitive_topology_bits = (primitive_topology.code() & PRIMITIVE_TOPOLOGY_MASK_BITS)
            << PRIMITIVE_TOPOLOGY_SHIFT_BITS;
        PipelineKey::from_bits_retain(primitive_topology_bits)
    }

    /// The primitive topology stored in the key; an unknown code gives the
    /// default topology.
    pub fn primitive_topology(&self) -> (t: PrimitiveTopology)
        ensures
            t == topology_of_bits(self.bits),
    {
        let primitive_topology_bits = (self.bits >> PRIMITIVE_TOPOLOGY_SHIFT_BITS)
            & PRIMITIVE_TOPOLOGY_MASK_BITS;
        if primitive_topology_bits == 0 {
            PrimitiveTopology::PointList
        } else if primitive_topology_bits == 1 {
            PrimitiveTopology::LineList
        } else if primitive_topology_bits == 2 {
            PrimitiveTopology::LineStrip
        } else if primitive_topology_bits == 3 {
            PrimitiveTopology::TriangleList
        } else if primitive_topology_bits == 4 {
            PrimitiveTopology::TriangleStrip
        } else {
            PrimitiveTopology::default()
        }
    }

    /// `BLEND_ADDITIVE` for additive blending, no flag for alpha blending.
    pub fn from_blend_mode(blend_mode: BlendMode) -> (key: Self)
        ensures
            key.bits == blend_key_bits(blend_mode),
    {
        match blend_mode {
            BlendMode::Alpha => PipelineKey::from_bits_retain(NONE),
            BlendMode::Additive => PipelineKey::from_bits_retain(BLEND_ADDITIVE),
        }
    }

    /// The key carrying a tonemapping method.
    pub fn from_tonemapping(tonemapping: Tonemapping) -> (key: Self)
        ensures
            key.bits == tonemap_key_bits(tonemapping),
    {
        let code: u32 = match tonemapping {
            Tonemapping::Bypass => 0,
            Tonemapping::Reinhard => 1,
            Tonemapping::ReinhardLuminance => 2,
            Tonemapping::AcesFitted => 3,
            Tonemapping::AgX => 4,
            Tonemapping::SomewhatBoringDisplayTransform => 5,
            Tonemapping::TonyMcMapface => 6,
            Tonemapping::BlenderFilmic => 7,
        };
        PipelineKey::from_bits_retain(code << TONEMAP_METHOD_SHIFT_BITS)
    }

    /// The tonemapping method stored in the key.
    pub fn tonemap_method(&self) -> (t: Tonemapping)
        ensures
            t == tonemap_of_bits(self.bits),
    {
        let code = (self.bits >> TONEMAP_METHOD_SHIFT_BITS) & TONEMAP_METHOD_MASK_BITS;
        if code == 0 {
            Tonemapping::Bypass
        } else if code == 1 {
            Tonemapping::Reinhard
        } else if code == 2 {
            Tonemapping::ReinhardLuminance
        } else if code == 3 {
            Tonemapping::AcesFitted
        } else if code == 4 {
            Tonemapping::AgX
        } else if code == 5 {
            Tonemapping::SomewhatBoringDisplayTransform
        } else if code == 6 {
            Tonemapping::TonyMcMapface
        } else {
            Tonemapping::BlenderFilmic
        }
    }
}

/// The key of a camera's view: its MSAA sample count, triangle strips, HDR,
/// and, for a non-HDR view, in-shader tonemapping with the camera's method
/// and deband dithering when the camera asks for them.
pub open spec fn view_key_bits(
    msaa_samples: u32,
    hdr: bool,
    tonemapping: Option<Tonemapping>,
    dither: Option<DebandDither>,
) -> u32 {
    let base = (if hdr { 1u32 } else { 0u32 }) | (msaa_key_bits(msaa_samples) | topology_key_bits(
        PrimitiveTopology::TriangleStrip,
    ));
    if hdr {
        base
    } else {
        let with_tonemap = match tonemapping {
            Some(t) => (base | 2u32) | tonemap_key_bits(t),
            None => base,
        };
        match dither {
            Some(DebandDither::Enabled) => with_tonemap | 4u32,
            _ => with_tonemap,
        }
    }
}

/// The key of a camera's view (see [`view_key_bits`]).
pub fn view_key(
    msaa_samples: u32,
    hdr: bool,
    tonemapping: Option<Tonemapping>,
    dither: Option<DebandDither>,
) -> (key: PipelineKey)
    ensures
        key.bits == view_key_bits(msaa_samples, hdr, tonemapping, dither),
{
    let mesh_key = PipelineKey::from_msaa_samples(msaa_samples).union(
        PipelineKey::from_primitive_topology(PrimitiveTopology::TriangleStrip),
    );
    let mut view_key = PipelineKey::from_hdr(hdr).union(mesh_key);
    if !hdr {
        if let Some(t) = tonemapping {
            view_key = view_key.union(PipelineKey::from_bits_retain(TONEMAP_IN_SHADER));
            view_key = view_key.union(PipelineKey::from_tonemapping(t));
        }
        if let Some(DebandDither::Enabled) = dither {
            view_key = view_key.union(PipelineKey::from_bits_retain(DEBAND_DITHER));
        }
    }
    view_key
}

/// The key of one shape seen from a view: the view's key and the shape's
/// blend mode.
pub fn shape_key(view_key: PipelineKey, blend_mode: BlendMode) -> (key: PipelineKey)
    ensures
        key.bits == view_key.bits | blend_key_bits(blend_mode),
{
    view_key.union(PipelineKey::from_blend_mode(blend_mode))
}

/// Two to the power `k` has exactly `k` trailing zeros.
pub proof fn lemma_trailing_zeros_of_power_of_two(k: u32)
    requires
        k < 32,
    ensures
        u32_trailing_zeros(1u32 << k) == k,
{
    let x = 1u32 << k;
    axiom_u32_trailing_zeros(x);
    let t = u32_trailing_zeros(x);
    assert(x != 0) by (bit_vector)
        requires
            x == 1u32 << k,
            k < 32,
    ;
    assert(t == k) by (bit_vector)
        requires
            x == 1u32 << k,
            k < 32,
            t < 32,
            (x >> t) & 1u32 == 1u32,
            t <= k || (x >> k) & 1u32 == 0u32,
    ;
}

/// Storing a power-of-two sample count of at most 128 in a key and reading it
/// back gives the same count, whatever else is set outside the MSAA field.
pub proof fn lemma_msaa_round_trip(k: u32, other: u32)
    requires
        k < 8,
        other & 0xE000_0000u32 == 0,
    ensures
        msaa_of_bits(msaa_key_bits(1u32 << k) | other) == 1u32 << k,
{
    lemma_trailing_zeros_of_power_of_two(k);
    let tz = u32_trailing_zeros(1u32 << k);
    assert(1u32 << ((((tz & 7u32) << 29u32) | other) >> 29u32 & 7u32) == 1u32 << k)
        by (bit_vector)
        requires
            tz == k,
            k < 8,
            other & 0xE000_0000u32 == 0,
    ;
}

/// Storing a topology in a key and reading it back gives the same topology,
/// whatever else is set outside the topology field.
pub proof fn lemma_topology_round_trip(t: PrimitiveTopology, other: u32)
    requires
        other & 0x1C00_0000u32 == 0,
    ensures
        topology_of_bits(topology_key_bits(t) | other) == t,
{
    let c = topology_code(t);
    assert((((c & 7u32) << 26u32) | other) >> 26u32 & 7u32 == c) by (bit_vector)
        requires
            c < 8,
            other & 0x1C00_0000u32 == 0,
    ;
}

/// Storing a tonemapping method in a key and reading it back gives the same
/// method, whatever else is set outside the tonemapping field.
pub proof fn lemma_tonemap_round_trip(t: Tonemapping, other: u32)
    requires
        other & 0x0380_0000u32 == 0,
    ensures
        tonemap_of_bits(tonemap_key_bits(t) | other) == t,
{
    let c = tonemap_code(t);
    assert(((c << 23u32) | other) >> 23u32 & 7u32 == c) by (bit_vector)
        requires
            c < 8,
            other & 0x0380_0000u32 == 0,
    ;
}

} // verus!
