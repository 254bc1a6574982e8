use vstd::prelude::*;

verus! {

/// WGSL source of the blit shader. `vs_main` emits one triangle covering the
/// whole viewport from the vertex index alone (no vertex buffer); each
/// fragment entry point samples binding 0 through the sampler at binding 1
/// and applies one conversion.
pub const BLIT_SHADER: &'static str = "
struct VertexOutput {
    @builtin(position) position: vec4<f32>,
    @location(0) uv: vec2<f32>,
};

@vertex
fn vs_main(@builtin(vertex_index) index: u32) -> VertexOutput {
    let uv = vec2<f32>(f32((index << 1u) & 2u), f32(index & 2u));
    var out: VertexOutput;
    out.position = vec4<f32>(uv * 2.0 - 1.0, 0.0, 1.0);
    out.uv = vec2<f32>(uv.x, 1.0 - uv.y);
    return out;
}

@group(0) @binding(0) var source: texture_2d<f32>;
@group(0) @binding(1) var source_sampler: sampler;

@fragment
fn fs_main(in: VertexOutput) -> @location(0) vec4<f32> {
    return textureSample(source, source_sampler, in.uv);
}

fn linear_to_srgb(c: vec3<f32>) -> vec3<f32> {
    let low = c * 12.92;
    let high = 1.055 * pow(c, vec3<f32>(1.0 / 2.4)) - 0.055;
    return select(high, low, c <= vec3<f32>(0.0031308));
}

@fragment
fn fs_main_linear_to_srgb(in: VertexOutput) -> @location(0) vec4<f32> {
    let c = textureSample(source, source_sampler, in.uv);
    return vec4<f32>(linear_to_srgb(c.rgb), c.a);
}

@fragment
fn fs_main_rgbe_to_linear(in: VertexOutput) -> @location(0) vec4<f32> {
    let c = textureSample(source, source_sampler, in.uv);
    let scale = exp2(c.a * 255.0 - 136.0);
    return vec4<f32>(c.rgb * 255.0 * scale, 1.0);
}
";

} // verus!
