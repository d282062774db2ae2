//! WGSL sources that the library writes: shapes and fills given as a function
//! body or a single expression, and the fragment shader that joins a shape's
//! distance function with its fill.
use vstd::prelude::*;

verus! {

/// Start of a distance-function shader, up to its body.
pub const SDF_BODY_HEAD: &'static str = "\n#import bevy_smud::shapes\nfn sdf(p: vec2<f32>, params: vec4<f32>) -> f32 {\n    ";
/// Start of a fill shader, up to its body.
pub const FILL_BODY_HEAD: &'static str = "\nfn fill(d: f32, color: vec4<f32>) -> vec4<f32> {\n    ";
/// End of a shader written from a body.
pub const BODY_TAIL: &'static str = "\n}\n";
/// What turns an expression into a body.
pub const RETURN_HEAD: &'static str = "return ";
/// What ends a body made from an expression.
pub const RETURN_TAIL: &'static str = ";";

/// The distance-function shader with the given body.
pub open spec fn sdf_body_text(body: Seq<char>) -> Seq<char> {
    SDF_BODY_HEAD@ + body + BODY_TAIL@
}

/// The fill shader with the given body.
pub open spec fn fill_body_text(body: Seq<char>) -> Seq<char> {
    FILL_BODY_HEAD@ + body + BODY_TAIL@
}

/// The body that returns the given expression.
pub open spec fn return_body_text(expr: Seq<char>) -> Seq<char> {
    RETURN_HEAD@ + expr + RETURN_TAIL@
}

fn wrap(head: &str, middle: &str, tail: &str) -> (s: String)
    ensures
        s@ == head@ + middle@ + tail@,
{
    let mut s = String::from_str(head);
    s.append(middle);
    s.append(tail);
    s
}

/// Source of a distance-function shader with the given body; the body sees
/// the point `p` and the shape's `params`, and the shapes library.
pub fn sdf_body_source(body: &str) -> (source: String)
    ensures
        source@ == sdf_body_text(body@),
{
    wrap(SDF_BODY_HEAD, body, BODY_TAIL)
}

/// Source of a fill shader with the given body; the body sees the distance
/// `d` and the `color`.
pub fn fill_body_source(body: &str) -> (source: String)
    ensures
        source@ == fill_body_text(body@),
{
    wrap(FILL_BODY_HEAD, body, BODY_TAIL)
}

/// The body `return <expr>;`.
pub fn return_body(expr: &str) -> (body: String)
    ensures
        body@ == return_body_text(expr@),
{
    wrap(RETURN_HEAD, expr, RETURN_TAIL)
}

/// Source of a distance-function shader that returns the given expression.
pub fn sdf_expr_source(expr: &str) -> (source: String)
    ensures
        source@ == sdf_body_text(return_body_text(expr@)),
{
    let body = return_body(expr);
    sdf_body_source(body.as_str())
}

/// Source of a fill shader that returns the given expression.
pub fn fill_expr_source(expr: &str) -> (source: String)
    ensures
        source@ == fill_body_text(return_body_text(expr@)),
{
    let body = return_body(expr);
    fill_body_source(body.as_str())
}

/// Start of the generated fragment shader, up to the distance shader's path.
pub const GENERATED_HEAD: &'static str = "\n#ifdef TONEMAP_IN_SHADER\n#import bevy_core_pipeline::tonemapping\n#endif\n\n#import bevy_smud::view_bindings::view\n#import smud\n\n#import ";
/// Text between the distance shader's path and the fill shader's path.
pub const GENERATED_MIDDLE: &'static str = " as sdf\n#import ";
/// The rest of the generated fragment shader, after the fill shader's path.
pub const GENERATED_TAIL: &'static str = " as fill\n\nstruct FragmentInput {\n    @location(0) color: vec4<f32>,\n    @location(1) pos: vec2<f32>,\n    @location(2) params: vec4<f32>,\n};\n\n@fragment\nfn fragment(in: FragmentInput) -> @location(0) vec4<f32> {\n    let sdf_input = smud::SdfInput(in.pos, in.params);\n    let d = sdf::sdf(sdf_input);\n    let fill_input = smud::FillInput(\n        in.pos,\n        in.params,\n        d,\n        in.color,\n    );\n    var color = fill::fill(fill_input);\n\n#ifdef TONEMAP_IN_SHADER\n    color = tonemapping::tone_mapping(color, view.color_grading);\n#endif\n\n    return color;\n}\n";

/// The fragment shader that imports a shape's distance shader as `sdf` and its
/// fill shader as `fill`, evaluates the distance, fills with it and tonemaps
/// when asked to.
pub open spec fn generated_shader_text(sdf_path: Seq<char>, fill_path: Seq<char>) -> Seq<char> {
    GENERATED_HEAD@ + sdf_path + GENERATED_MIDDLE@ + fill_path + GENERATED_TAIL@
}

/// Source of the fragment shader for a shape whose distance shader and fill
/// shader have the given import paths.
pub fn generated_shader_source(sdf_import_path: &str, fill_import_path: &str) -> (source: String)
    ensures
        source@ == generated_shader_text(sdf_import_path@, fill_import_path@),
{
    let mut source = String::from_str(GENERATED_HEAD);
    source.append(sdf_import_path);
    source.append(GENERATED_MIDDLE);
    source.append(fill_import_path);
    source.append(GENERATED_TAIL);
    source
}

} // verus!
