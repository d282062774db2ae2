//! What a specialised shape pipeline is made of, decided from its key.
use vstd::prelude::*;

use crate::asset::ShaderPair;
use crate::components::BlendMode;
use crate::pipeline_key::{
    blend_key_bits, msaa_key_bits, tonemap_code, topology_key_bits, view_key_bits, DebandDither,
    lemma_trailing_zeros_of_power_of_two, msaa_of_bits, tonemap_of_bits, topology_of_bits, PipelineKey, PrimitiveTopology, Tonemapping,
    BLEND_ADDITIVE, DEBAND_DITHER, TONEMAP_IN_SHADER, TONEMAP_METHOD_RESERVED_BITS,
};

verus! {

/// Key of a specialised shape pipeline.
#[derive(Clone, Copy, Debug, PartialEq, Eq, Structural, Hash)]
pub struct SmudPipelineKey {
    /// Flags and packed fields of the view and shape.
    pub mesh: PipelineKey,
    /// The shape's distance and fill shaders.
    pub shader: ShaderPair,
    /// Whether the view renders to an HDR target.
    pub hdr: bool,
}

/// A shader definition handed to the fragment shader.
#[derive(Clone, Copy, Debug, PartialEq, Eq, Structural)]
pub enum ShaderDef {
    /// `TONEMAP_IN_SHADER`: tonemap in the fragment shader.
    TonemapInShader,
    /// `TONEMAPPING_LUT_TEXTURE_BINDING_INDEX` with its binding.
    LutTextureBindingIndex(u32),
    /// `TONEMAPPING_LUT_SAMPLER_BINDING_INDEX` with its binding.
    LutSamplerBindingIndex(u32),
    /// `TONEMAP_METHOD_...` naming the method.
    TonemapMethod(Tonemapping),
    /// `DEBAND_DITHER`: dither in the fragment shader.
    DebandDither,
    /// `Y_DOWN`: the vertex shader works in UI space, where y grows downward.
    YDown,
}

/// The name of the shader definition for a tonemapping method.
pub open spec fn tonemap_def_name(t: Tonemapping) -> Seq<char> {
    match t {
        Tonemapping::Bypass => "TONEMAP_METHOD_NONE"@,
        Tonemapping::Reinhard => "TONEMAP_METHOD_REINHARD"@,
        Tonemapping::ReinhardLuminance => "TONEMAP_METHOD_REINHARD_LUMINANCE"@,
        Tonemapping::AcesFitted => "TONEMAP_METHOD_ACES_FITTED"@,
        Tonemapping::AgX => "TONEMAP_METHOD_AGX"@,
        Tonemapping::SomewhatBoringDisplayTransform =>
            "TONEMAP_METHOD_SOMEWHAT_BORING_DISPLAY_TRANSFORM"@,
        Tonemapping::TonyMcMapface => "TONEMAP_METHOD_TONY_MC_MAPFACE"@,
        Tonemapping::BlenderFilmic => "TONEMAP_METHOD_BLENDER_FILMIC"@,
    }
}

/// The name of a shader definition.
pub open spec fn shader_def_name(d: ShaderDef) -> Seq<char> {
    match d {
        ShaderDef::TonemapInShader => "TONEMAP_IN_SHADER"@,
        ShaderDef::LutTextureBindingIndex(_) => "TONEMAPPING_LUT_TEXTURE_BINDING_INDEX"@,
        ShaderDef::LutSamplerBindingIndex(_) => "TONEMAPPING_LUT_SAMPLER_BINDING_INDEX"@,
        ShaderDef::TonemapMethod(t) => tonemap_def_name(t),
        ShaderDef::DebandDither => "DEBAND_DITHER"@,
        ShaderDef::YDown => "Y_DOWN"@,
    }
}

/// The value of a shader definition: a number for the two LUT bindings,
/// none (a plain switch) for the others.
pub open spec fn shader_def_value(d: ShaderDef) -> Option<u32> {
    match d {
        ShaderDef::LutTextureBindingIndex(v) => Some(v),
        ShaderDef::LutSamplerBindingIndex(v) => Some(v),
        _ => None,
    }
}

impl ShaderDef {
    /// The name of the definition.
    pub fn name(&self) -> (s: String)
        ensures
            s@ == shader_def_name(*self),
    {
        match self {
            ShaderDef::TonemapInShader => String::from_str("TONEMAP_IN_SHADER"),
            ShaderDef::LutTextureBindingIndex(_) => String::from_str(
                "TONEMAPPING_LUT_TEXTURE_BINDING_INDEX",
            ),
            ShaderDef::LutSamplerBindingIndex(_) => String::from_str(
                "TONEMAPPING_LUT_SAMPLER_BINDING_INDEX",
            ),
            ShaderDef::TonemapMethod(t) => match t {
                Tonemapping::Bypass => String::from_str("TONEMAP_METHOD_NONE"),
                Tonemapping::Reinhard => String::from_str("TONEMAP_METHOD_REINHARD"),
                Tonemapping::ReinhardLuminance => String::from_str(
                    "TONEMAP_METHOD_REINHARD_LUMINANCE",
                ),
                Tonemapping::AcesFitted => String::from_str("TONEMAP_METHOD_ACES_FITTED"),
                Tonemapping::AgX => String::from_str("TONEMAP_METHOD_AGX"),
                Tonemapping::SomewhatBoringDisplayTransform => String::from_str(
                    "TONEMAP_METHOD_SOMEWHAT_BORING_DISPLAY_TRANSFORM",
                ),
                Tonemapping::TonyMcMapface => String::from_str("TONEMAP_METHOD_TONY_MC_MAPFACE"),
                Tonemapping::BlenderFilmic => String::from_str("TONEMAP_METHOD_BLENDER_FILMIC"),
            },
            ShaderDef::DebandDither => String::from_str("DEBAND_DITHER"),
            ShaderDef::YDown => String::from_str("Y_DOWN"),
        }
    }

    /// The numeric value of the definition, if it has one.
    pub fn value(&self) -> (v: Option<u32>)
        ensures
            v == shader_def_value(*self),
    {
        match self {
            ShaderDef::LutTextureBindingIndex(v) => Some(*v),
            ShaderDef::LutSamplerBindingIndex(v) => Some(*v),
            _ => None,
        }
    }
}

/// The shader definitions of a pipeline with the given key bits: none unless
/// tonemapping happens in the shader; then the switch, the two LUT bindings
/// (2 and 3), the method stored in the key, and deband dithering if flagged.
pub open spec fn shader_defs_for(bits: u32) -> Seq<ShaderDef> {
    if bits & TONEMAP_IN_SHADER == TONEMAP_IN_SHADER {
        seq![
            ShaderDef::TonemapInShader,
            ShaderDef::LutTextureBindingIndex(2),
            ShaderDef::LutSamplerBindingIndex(3),
            ShaderDef::TonemapMethod(tonemap_of_bits(bits)),
        ] + if bits & DEBAND_DITHER == DEBAND_DITHER {
            seq![ShaderDef::DebandDither]
        } else {
            Seq::<ShaderDef>::empty()
        }
    } else {
        Seq::<ShaderDef>::empty()
    }
}

/// The shader definitions of a pipeline with the given key.
pub fn shader_defs(key: PipelineKey) -> (defs: Vec<ShaderDef>)
    ensures
        defs@ == shader_defs_for(key.bits),
{
    let mut shader_defs: Vec<ShaderDef> = Vec::new();
    if key.contains(PipelineKey::from_bits_retain(TONEMAP_IN_SHADER)) {
        shader_defs.push(ShaderDef::TonemapInShader);
        shader_defs.push(ShaderDef::LutTextureBindingIndex(2));
        shader_defs.push(ShaderDef::LutSamplerBindingIndex(3));
        let method = key.intersection(PipelineKey::from_bits_retain(TONEMAP_METHOD_RESERVED_BITS));
        shader_defs.push(ShaderDef::TonemapMethod(method.tonemap_method()));
        proof {
            let b = key.bits;
            assert((b & 0x0380_0000u32) >> 23u32 & 7u32 == (b >> 23u32) & 7u32) by (bit_vector);
        }
        // Debanding is tied to tonemapping in the shader, cannot run without it.
        if key.contains(PipelineKey::from_bits_retain(DEBAND_DITHER)) {
            shader_defs.push(ShaderDef::DebandDither);
        }
    }
    shader_defs
}

/// Format of one vertex attribute.
#[derive(Clone, Copy, Debug, PartialEq, Eq, Structural)]
pub enum VertexFormat {
    /// One 32-bit float.
    Float32,
    /// Two 32-bit floats.
    Float32x2,
    /// Three 32-bit floats.
    Float32x3,
    /// Four 32-bit floats.
    Float32x4,
}

/// Size in bytes of an attribute of the given format.
pub open spec fn format_size(f: VertexFormat) -> nat {
    match f {
        VertexFormat::Float32 => 4,
        VertexFormat::Float32x2 => 8,
        VertexFormat::Float32x3 => 12,
        VertexFormat::Float32x4 => 16,
    }
}

impl VertexFormat {
    /// Size in bytes of an attribute of this format.
    pub fn size(&self) -> (s: u64)
        ensures
            s == format_size(*self),
    {
        match self {
            VertexFormat::Float32 => 4,
            VertexFormat::Float32x2 => 8,
            VertexFormat::Float32x3 => 12,
            VertexFormat::Float32x4 => 16,
        }
    }
}

/// One attribute of the per-instance vertex buffer.
#[derive(Clone, Copy, Debug, PartialEq, Eq, Structural)]
pub struct VertexAttribute {
    /// Its format.
    pub format: VertexFormat,
    /// Its byte offset inside a vertex.
    pub offset: u64,
    /// The shader location it is bound to.
    pub shader_location: u32,
}

/// Layout of the per-instance vertex buffer.
pub struct VertexLayout {
    /// Bytes from one vertex to the next.
    pub array_stride: u64,
    /// The attributes, in buffer order.
    pub attributes: Vec<VertexAttribute>,
}

/// The bytes taken by the first `n` fields.
pub open spec fn offset_before(fields: Seq<(VertexFormat, u32)>, n: int) -> nat
    decreases n,
{
    if n <= 0 {
        0
    } else {
        offset_before(fields, n - 1) + format_size(fields[n - 1].0)
    }
}

/// The attributes of fields laid out one after another, in the given order.
pub open spec fn packed_attributes(fields: Seq<(VertexFormat, u32)>) -> Seq<VertexAttribute> {
    Seq::new(
        fields.len(),
        |i: int|
            VertexAttribute {
                format: fields[i].0,
                offset: offset_before(fields, i) as u64,
                shader_location: fields[i].1,
            },
    )
}

proof fn lemma_offset_before_bound(fields: Seq<(VertexFormat, u32)>, n: int)
    requires
        0 <= n <= fields.len(),
    ensures
        offset_before(fields, n) <= 16 * n,
    decreases n,
{
    if n > 0 {
        lemma_offset_before_bound(fields, n - 1);
    }
}

/// Lays the given fields (format and shader location) out one after another,
/// with no padding; the stride is their total size.
pub fn pack_vertex_fields(fields: &Vec<(VertexFormat, u32)>) -> (layout: VertexLayout)
    requires
        16 * fields.len() <= u64::MAX,
    ensures
        layout.attributes@ == packed_attributes(fields@),
        layout.array_stride == offset_before(fields@, fields.len() as int),
{
    let mut attributes: Vec<VertexAttribute> = Vec::new();
    let mut offset: u64 = 0;
    let mut i: usize = 0;
    while i < fields.len()
        invariant
            i <= fields.len(),
            16 * fields.len() <= u64::MAX,
            offset == offset_before(fields@, i as int),
            attributes@ =~= packed_attributes(fields@).subrange(0, i as int),
        decreases fields.len() - i,
    {
        proof {
            lemma_offset_before_bound(fields@, i as int);
        }
        let (format, location) = fields[i];
        attributes.push(VertexAttribute { format, offset, shader_location: location });
        offset = offset + format.size();
        i = i + 1;
    }
    proof {
        assert(attributes@ =~= packed_attributes(fields@));
    }
    VertexLayout { array_stride: offset, attributes }
}

/// The fields of a shape vertex in buffer order (alphabetical by name):
/// colour, bounds, params, position, rotation and scale, with their shader
/// locations.
pub open spec fn shape_vertex_fields() -> Seq<(VertexFormat, u32)> {
    seq![
        (VertexFormat::Float32x4, 1u32),
        (VertexFormat::Float32x2, 5u32),
        (VertexFormat::Float32x4, 2u32),
        (VertexFormat::Float32x3, 0u32),
        (VertexFormat::Float32x2, 3u32),
        (VertexFormat::Float32, 4u32),
    ]
}

/// Layout of the shape vertex buffer.
pub fn shape_vertex_layout() -> (layout: VertexLayout)
    ensures
        layout.attributes@ == packed_attributes(shape_vertex_fields()),
        layout.array_stride == offset_before(shape_vertex_fields(), 6),
{
    let mut fields: Vec<(VertexFormat, u32)> = Vec::new();
    // Color
    fields.push((VertexFormat::Float32x4, 1));
    // Bounds
    fields.push((VertexFormat::Float32x2, 5));
    // Params
    fields.push((VertexFormat::Float32x4, 2));
    // Position
    fields.push((VertexFormat::Float32x3, 0));
    // Rotation
    fields.push((VertexFormat::Float32x2, 3));
    // Scale
    fields.push((VertexFormat::Float32, 4));
    assert(fields@ =~= shape_vertex_fields());
    pack_vertex_fields(&fields)
}

/// The shape vertex buffer has the offsets 0, 16, 24, 40, 52 and 60 and a
/// stride of 64 bytes, binds the shader locations 1, 5, 2, 0, 3 and 4 (each once),
/// and its attributes neither overlap nor leave the stride.
pub proof fn lemma_shape_vertex_layout()
    ensures
        packed_attributes(shape_vertex_fields()).map_values(|a: VertexAttribute| a.offset)
            =~= seq![0u64, 16, 24, 40, 52, 60],
        offset_before(shape_vertex_fields(), 6) == 64,
        forall|i: int, j: int|
            0 <= i < j < 6 ==> #[trigger] packed_attributes(shape_vertex_fields())[i].shader_location
                != #[trigger] packed_attributes(shape_vertex_fields())[j].shader_location,
        packed_attributes(shape_vertex_fields()).map_values(|a: VertexAttribute| a.shader_location)
            =~= seq![1u32, 5, 2, 0, 3, 4],
        forall|i: int|
            0 <= i < 5 ==> #[trigger] packed_attributes(shape_vertex_fields())[i].offset
                + format_size(packed_attributes(shape_vertex_fields())[i].format)
                == packed_attributes(shape_vertex_fields())[i + 1].offset,
        packed_attributes(shape_vertex_fields())[5].offset + format_size(
            packed_attributes(shape_vertex_fields())[5].format,
        ) == 64,
{
    let f = shape_vertex_fields();
    assert(offset_before(f, 0) == 0);
    assert(offset_before(f, 1) == 16);
    assert(offset_before(f, 2) == 24);
    assert(offset_before(f, 3) == 40);
    assert(offset_before(f, 4) == 52);
    assert(offset_before(f, 5) == 60);
    assert(offset_before(f, 6) == 64);
    let a = packed_attributes(f);
    assert(a[0].shader_location == 1);
    assert(a[1].shader_location == 5);
    assert(a[2].shader_location == 2);
    assert(a[3].shader_location == 0);
    assert(a[4].shader_location == 3);
    assert(a[5].shader_location == 4);
}

/// The fields of a UI shape vertex in buffer order: position, colour, params,
/// rotation, scale and bounds (with the extra padding), bound to the shader
/// locations 0 to 5 in that order.
pub open spec fn ui_vertex_fields() -> Seq<(VertexFormat, u32)> {
    seq![
        (VertexFormat::Float32x3, 0u32),
        (VertexFormat::Float32x4, 1u32),
        (VertexFormat::Float32x4, 2u32),
        (VertexFormat::Float32x2, 3u32),
        (VertexFormat::Float32, 4u32),
        (VertexFormat::Float32x4, 5u32),
    ]
}

/// Layout of the UI shape vertex buffer.
pub fn ui_vertex_layout() -> (layout: VertexLayout)
    ensures
        layout.attributes@ == packed_attributes(ui_vertex_fields()),
        layout.array_stride == offset_before(ui_vertex_fields(), 6),
{
    let mut fields: Vec<(VertexFormat, u32)> = Vec::new();
    // position
    fields.push((VertexFormat::Float32x3, 0));
    // color
    fields.push((VertexFormat::Float32x4, 1));
    // params
    fields.push((VertexFormat::Float32x4, 2));
    // rotation
    fields.push((VertexFormat::Float32x2, 3));
    // scale
    fields.push((VertexFormat::Float32, 4));
    // bounds
    fields.push((VertexFormat::Float32x4, 5));
    assert(fields@ =~= ui_vertex_fields());
    pack_vertex_fields(&fields)
}

/// The UI shape vertex buffer has the offsets 0, 12, 28, 44, 52 and 56 and a
/// stride of 72 bytes (the size of a UI shape vertex).
pub proof fn lemma_ui_vertex_layout()
    ensures
        packed_attributes(ui_vertex_fields()).map_values(|a: VertexAttribute| a.offset)
            =~= seq![0u64, 12, 28, 44, 52, 56],
        offset_before(ui_vertex_fields(), 6) == 72,
{
    let f = ui_vertex_fields();
    assert(offset_before(f, 0) == 0);
    assert(offset_before(f, 1) == 12);
    assert(offset_before(f, 2) == 28);
    assert(offset_before(f, 3) == 44);
    assert(offset_before(f, 4) == 52);
    assert(offset_before(f, 5) == 56);
    assert(offset_before(f, 6) == 72);
}

/// A factor of a blend equation.
#[derive(Clone, Copy, Debug, PartialEq, Eq, Structural)]
pub enum BlendFactor {
    /// 0.
    Zero,
    /// 1.
    One,
    /// The source alpha.
    SrcAlpha,
    /// One minus the source alpha.
    OneMinusSrcAlpha,
}

/// How the two terms of a blend equation are combined.
#[derive(Clone, Copy, Debug, PartialEq, Eq, Structural)]
pub enum BlendOperation {
    /// Source term plus destination term.
    Add,
}

/// The blend equation of one channel group.
#[derive(Clone, Copy, Debug, PartialEq, Eq, Structural)]
pub struct BlendComponent {
    /// Factor of the source (the fragment).
    pub src_factor: BlendFactor,
    /// Factor of the destination (the target).
    pub dst_factor: BlendFactor,
    /// How the terms are combined.
    pub operation: BlendOperation,
}

/// The blend equations of the colour and the alpha channels.
#[derive(Clone, Copy, Debug, PartialEq, Eq, Structural)]
pub struct BlendState {
    /// Equation of the colour channels.
    pub color: BlendComponent,
    /// Equation of the alpha channel.
    pub alpha: BlendComponent,
}

/// Standard alpha blending with non-premultiplied alpha: colour
/// `src_alpha * src + (1 - src_alpha) * dst`, alpha `src + (1 - src_alpha) * dst`.
pub open spec fn alpha_blending() -> BlendState {
    BlendState {
        color: BlendComponent {
            src_factor: BlendFactor::SrcAlpha,
            dst_factor: BlendFactor::OneMinusSrcAlpha,
            operation: BlendOperation::Add,
        },
        alpha: BlendComponent {
            src_factor: BlendFactor::One,
            dst_factor: BlendFactor::OneMinusSrcAlpha,
            operation: BlendOperation::Add,
        },
    }
}

/// Additive blending: colour `src_alpha * src + dst`, alpha `src + dst`.
pub open spec fn additive_blending() -> BlendState {
    BlendState {
        color: BlendComponent {
            src_factor: BlendFactor::SrcAlpha,
            dst_factor: BlendFactor::One,
            operation: BlendOperation::Add,
        },
        alpha: BlendComponent {
            src_factor: BlendFactor::One,
            dst_factor: BlendFactor::One,
            operation: BlendOperation::Add,
        },
    }
}

/// The blend equations of a blend mode.
pub open spec fn blend_state_for(mode: BlendMode) -> BlendState {
    match mode {
        BlendMode::Alpha => alpha_blending(),
        BlendMode::Additive => additive_blending(),
    }
}

/// The blend equations of a blend mode.
pub fn blend_state(mode: BlendMode) -> (state: BlendState)
    ensures
        state == blend_state_for(mode),
{
    match mode {
        BlendMode::Alpha => BlendState {
            color: BlendComponent {
                src_factor: BlendFactor::SrcAlpha,
                dst_factor: BlendFactor::OneMinusSrcAlpha,
                operation: BlendOperation::Add,
            },
            alpha: BlendComponent {
                src_factor: BlendFactor::One,
                dst_factor: BlendFactor::OneMinusSrcAlpha,
                operation: BlendOperation::Add,
            },
        },
        BlendMode::Additive => BlendState {
            color: BlendComponent {
                src_factor: BlendFactor::SrcAlpha,
                dst_factor: BlendFactor::One,
                operation: BlendOperation::Add,
            },
            alpha: BlendComponent {
                src_factor: BlendFactor::One,
                dst_factor: BlendFactor::One,
                operation: BlendOperation::Add,
            },
        },
    }
}

/// A pipeline blends with the alpha-blending equations exactly when its mode
/// is alpha blending, and with the additive ones exactly when it is additive.
pub proof fn lemma_blend_states(mode: BlendMode)
    ensures
        (blend_state_for(mode) == alpha_blending()) <==> (mode == BlendMode::Alpha),
        (blend_state_for(mode) == additive_blending()) <==> (mode == BlendMode::Additive),
{
}

/// Which triangles are culled.
#[derive(Clone, Copy, Debug, PartialEq, Eq, Structural)]
pub enum Face {
    /// Front-facing triangles.
    Front,
    /// Back-facing triangles.
    Back,
}

/// Format of the colour target.
#[derive(Clone, Copy, Debug, PartialEq, Eq, Structural)]
pub enum TargetFormat {
    /// The HDR format of views.
    Hdr,
    /// The default (SDR) format of views.
    Default,
    /// 8-bit sRGB with alpha, the format of the UI target.
    Rgba8UnormSrgb,
}

/// Everything of a shape pipeline that depends on its key, and the fixed
/// choices beside it.
pub struct PipelineSpec {
    /// Definitions handed to the fragment shader.
    pub shader_defs: Vec<ShaderDef>,
    /// Format of the colour target.
    pub target_format: TargetFormat,
    /// The blend mode.
    pub blend: BlendMode,
    /// The blend equations.
    pub blend_state: BlendState,
    /// Which triangles are culled (counter-clockwise triangles face front).
    pub cull_mode: Option<Face>,
    /// Whether the 2D depth buffer is tested (greater or equal, no writes).
    pub depth_test: bool,
    /// How vertices form primitives.
    pub topology: PrimitiveTopology,
    /// Number of MSAA samples.
    pub msaa_samples: u32,
    /// Layout of the per-instance vertex buffer.
    pub vertex_layout: VertexLayout,
}

/// The blend mode a key asks for.
pub open spec fn key_blend_mode(bits: u32) -> BlendMode {
    if bits & BLEND_ADDITIVE == BLEND_ADDITIVE {
        BlendMode::Additive
    } else {
        BlendMode::Alpha
    }
}

/// The shape pipeline that a key calls for: its shader definitions, the HDR
/// or default target format, blending (additive when the key says so), back
/// faces culled, depth tested, topology, sample count and vertex layout.
pub open spec fn specialized(key: SmudPipelineKey, spec: PipelineSpec) -> bool {
    &&& spec.shader_defs@ == shader_defs_for(key.mesh.bits)
    &&& spec.target_format == (if key.hdr {
        TargetFormat::Hdr
    } else {
        TargetFormat::Default
    })
    &&& spec.blend == key_blend_mode(key.mesh.bits)
    &&& spec.blend_state == blend_state_for(key_blend_mode(key.mesh.bits))
    &&& spec.cull_mode == Some(Face::Back)
    &&& spec.depth_test
    &&& spec.topology == topology_of_bits(key.mesh.bits)
    &&& spec.msaa_samples == msaa_of_bits(key.mesh.bits)
    &&& spec.vertex_layout.attributes@ == packed_attributes(shape_vertex_fields())
    &&& spec.vertex_layout.array_stride == offset_before(shape_vertex_fields(), 6)
}

/// Decides the shape pipeline for a key, all but its fragment shader (see
/// `SmudPipeline::specialize`, which adds the generated one).
pub fn specialize(key: SmudPipelineKey) -> (spec: PipelineSpec)
    ensures
        specialized(key, spec),
        (spec.blend == BlendMode::Additive) <==> (key.mesh.bits & BLEND_ADDITIVE == BLEND_ADDITIVE),
        (spec.blend == BlendMode::Alpha) <==> (key.mesh.bits & BLEND_ADDITIVE != BLEND_ADDITIVE),
        key.mesh.bits & BLEND_ADDITIVE == BLEND_ADDITIVE ==> spec.blend_state == additive_blending(),
        key.mesh.bits & BLEND_ADDITIVE != BLEND_ADDITIVE ==> spec.blend_state == alpha_blending(),
{
    let shader_defs = shader_defs(key.mesh);
    let blend = if key.mesh.contains(PipelineKey::from_bits_retain(BLEND_ADDITIVE)) {
        BlendMode::Additive
    } else {
        BlendMode::Alpha
    };
    PipelineSpec {
        shader_defs,
        target_format: if key.hdr {
            TargetFormat::Hdr
        } else {
            TargetFormat::Default
        },
        blend,
        blend_state: blend_state(blend),
        cull_mode: Some(Face::Back),
        depth_test: true,
        topology: key.mesh.primitive_topology(),
        msaa_samples: key.mesh.msaa_samples(),
        vertex_layout: shape_vertex_layout(),
    }
}

/// The shader definitions that a view's camera settings call for: with an
/// SDR target and a tonemapping method, in-shader tonemapping with that method
/// (and dithering when the camera dithers); otherwise none.
pub open spec fn view_shader_defs(
    hdr: bool,
    tonemapping: Option<Tonemapping>,
    dither: Option<DebandDither>,
) -> Seq<ShaderDef> {
    match tonemapping {
        Some(t) => if hdr {
            Seq::<ShaderDef>::empty()
        } else {
            seq![
                ShaderDef::TonemapInShader,
                ShaderDef::LutTextureBindingIndex(2),
                ShaderDef::LutSamplerBindingIndex(3),
                ShaderDef::TonemapMethod(t),
            ] + if dither == Some(DebandDither::Enabled) {
                seq![ShaderDef::DebandDither]
            } else {
                Seq::<ShaderDef>::empty()
            }
        },
        None => Seq::<ShaderDef>::empty(),
    }
}

proof fn lemma_or_zero(x: u32)
    ensures
        x | 0u32 == x,
{
    assert(x | 0u32 == x) by (bit_vector);
}

proof fn lemma_key_fields(
    base: u32,
    h: u32,
    k: u32,
    ts: bool,
    c: u32,
    fd: bool,
    f8: u32,
    bits: u32,
)
    by (bit_vector)
    requires
        h <= 1,
        k < 8,
        c < 8,
        f8 == 0 || f8 == 8,
        base == h | (((k & 7u32) << 29u32) | ((4u32 & 7u32) << 26u32)),
        bits == (((base | (if ts { 2u32 } else { 0u32 })) | (if ts { c << 23u32 } else { 0u32 }))
            | (if fd { 4u32 } else { 0u32 })) | f8,
    ensures
        (bits >> 29u32) & 7u32 == k,
        (bits >> 26u32) & 7u32 == 4,
        ts ==> (bits >> 23u32) & 7u32 == c,
        (bits & 2u32 == 2u32) == ts,
        (bits & 4u32 == 4u32) == fd,
        (bits & 8u32 == 8u32) == (f8 == 8),
{
}

/// The pipeline of a shape seen from a view whose sample count is a power of
/// two up to 128 keeps that sample count, draws triangle strips, blends as the
/// shape asks, and gets the shader definitions that the view's camera settings
/// call for.
pub proof fn lemma_view_shape_pipeline(
    k: u32,
    hdr: bool,
    tonemapping: Option<Tonemapping>,
    dither: Option<DebandDither>,
    blend: BlendMode,
)
    requires
        k < 8,
    ensures
        ({
            let bits = view_key_bits(1u32 << k, hdr, tonemapping, dither) | blend_key_bits(blend);
            &&& msaa_of_bits(bits) == 1u32 << k
            &&& topology_of_bits(bits) == PrimitiveTopology::TriangleStrip
            &&& (bits & BLEND_ADDITIVE == BLEND_ADDITIVE) == (blend == BlendMode::Additive)
            &&& shader_defs_for(bits) == view_shader_defs(hdr, tonemapping, dither)
        }),
{
    lemma_trailing_zeros_of_power_of_two(k);
    let h: u32 = if hdr { 1 } else { 0 };
    let base = h | (msaa_key_bits(1u32 << k) | topology_key_bits(PrimitiveTopology::TriangleStrip));
    let ts = !hdr && tonemapping is Some;
    let c: u32 = match tonemapping {
        Some(t) => tonemap_code(t),
        None => 0,
    };
    let fd = !hdr && dither == Some(DebandDither::Enabled);
    let f8 = blend_key_bits(blend);
    let view = view_key_bits(1u32 << k, hdr, tonemapping, dither);
    let bits = view | f8;
    let sel2: u32 = if ts { 2 } else { 0 };
    let selc: u32 = if ts { c << 23u32 } else { 0 };
    let sel4: u32 = if fd { 4 } else { 0 };
    lemma_or_zero(base);
    lemma_or_zero(base | sel2);
    lemma_or_zero((base | sel2) | selc);
    assert(view == ((base | sel2) | selc) | sel4);
    lemma_key_fields(base, h, k, ts, c, fd, f8, bits);
    if ts {
        assert(tonemap_of_bits(bits) == tonemapping->0);
    }
    assert(shader_defs_for(bits) =~= view_shader_defs(hdr, tonemapping, dither));
}

/// Debanding is tied to tonemapping in the shader: a pipeline gets the
/// dithering definition only together with in-shader tonemapping, and then
/// exactly when its key asks for dithering.
pub proof fn lemma_dither_needs_tonemapping(bits: u32)
    ensures
        shader_defs_for(bits).contains(ShaderDef::DebandDither) <==> (bits & TONEMAP_IN_SHADER
            == TONEMAP_IN_SHADER && bits & DEBAND_DITHER == DEBAND_DITHER),
{
    let defs = shader_defs_for(bits);
    if bits & TONEMAP_IN_SHADER == TONEMAP_IN_SHADER && bits & DEBAND_DITHER == DEBAND_DITHER {
        assert(defs[4] == ShaderDef::DebandDither);
    }
    if defs.contains(ShaderDef::DebandDither) {
        let i = choose|i: int| 0 <= i < defs.len() && defs[i] == ShaderDef::DebandDither;
        assert(defs.len() > 0);
        if !(bits & DEBAND_DITHER == DEBAND_DITHER) {
            assert(defs.len() == 4);
            assert(defs[i] != ShaderDef::DebandDither);
        }
    }
}

/// Key of a specialised UI shape pipeline: the shape's generated fragment
/// shader (of any handle type) and its blend mode.
#[derive(Clone, Copy, Debug, PartialEq, Eq, Hash)]
pub struct UiShapePipelineKey<H> {
    /// The generated fragment shader of the shape.
    pub shader: H,
    /// How the shape is blended.
    pub blend_mode: BlendMode,
}

/// Everything of a UI shape pipeline.
pub struct UiPipelineSpec<H> {
    /// Definitions handed to the vertex shader.
    pub vertex_shader_defs: Vec<ShaderDef>,
    /// The generated fragment shader.
    pub fragment_shader: H,
    /// Format of the colour target.
    pub target_format: TargetFormat,
    /// The blend equations.
    pub blend_state: BlendState,
    /// Which triangles are culled (counter-clockwise triangles face front).
    pub cull_mode: Option<Face>,
    /// Whether a depth buffer is tested.
    pub depth_test: bool,
    /// How vertices form primitives.
    pub topology: PrimitiveTopology,
    /// Number of MSAA samples.
    pub msaa_samples: u32,
    /// Layout of the per-instance vertex buffer.
    pub vertex_layout: VertexLayout,
}

/// Decides the UI shape pipeline for a key: a vertex shader in UI space, the
/// shape's generated fragment shader on the 8-bit sRGB UI target, alpha or
/// additive blending as the shape asks, no culling, no depth test, one
/// triangle strip per node, no multisampling, and the UI vertex layout.
pub fn specialize_ui<H>(key: UiShapePipelineKey<H>) -> (spec: UiPipelineSpec<H>)
    ensures
        spec.vertex_shader_defs@ == seq![ShaderDef::YDown],
        spec.fragment_shader == key.shader,
        spec.target_format == TargetFormat::Rgba8UnormSrgb,
        spec.blend_state == blend_state_for(key.blend_mode),
        spec.cull_mode is None,
        !spec.depth_test,
        spec.topology == PrimitiveTopology::TriangleStrip,
        spec.msaa_samples == 1,
        spec.vertex_layout.attributes@ == packed_attributes(ui_vertex_fields()),
        spec.vertex_layout.array_stride == offset_before(ui_vertex_fields(), 6),
        (spec.blend_state == alpha_blending()) <==> (key.blend_mode == BlendMode::Alpha),
        (spec.blend_state == additive_blending()) <==> (key.blend_mode == BlendMode::Additive),
        spec.vertex_layout.attributes@.map_values(|a: VertexAttribute| a.offset)
            =~= seq![0u64, 12, 28, 44, 52, 56],
        spec.vertex_layout.array_stride == 72,
{
    proof {
        lemma_ui_pipeline(key.blend_mode);
    }
    let mut vertex_shader_defs: Vec<ShaderDef> = Vec::new();
    vertex_shader_defs.push(ShaderDef::YDown);
    assert(vertex_shader_defs@ =~= seq![ShaderDef::YDown]);
    UiPipelineSpec {
        vertex_shader_defs,
        fragment_shader: key.shader,
        target_format: TargetFormat::Rgba8UnormSrgb,
        blend_state: blend_state(key.blend_mode),
        cull_mode: None,
        depth_test: false,
        topology: PrimitiveTopology::TriangleStrip,
        msaa_samples: 1,
        vertex_layout: ui_vertex_layout(),
    }
}

/// The UI pipeline of any key blends with the alpha-blending equations exactly
/// when the key's mode is alpha blending (else additively), culls nothing,
/// draws one sample, and lays out its 72-byte vertices with position, colour,
/// params, rotation, scale and bounds at offsets 0, 12, 28, 44, 52 and 56.
pub proof fn lemma_ui_pipeline(blend_mode: BlendMode)
    ensures
        (blend_state_for(blend_mode) == alpha_blending()) <==> (blend_mode == BlendMode::Alpha),
        (blend_state_for(blend_mode) == additive_blending()) <==> (blend_mode
            == BlendMode::Additive),
        packed_attributes(ui_vertex_fields()).map_values(|a: VertexAttribute| a.offset)
            =~= seq![0u64, 12, 28, 44, 52, 56],
        packed_attributes(ui_vertex_fields()).map_values(|a: VertexAttribute| a.shader_location)
            =~= seq![0u32, 1, 2, 3, 4, 5],
        offset_before(ui_vertex_fields(), 6) == 72,
{
    lemma_blend_states(blend_mode);
    lemma_ui_vertex_layout();
}

} // verus!
