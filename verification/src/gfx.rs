//! The fixed GPU-side data: the full-screen quad's geometry and the shader
//! sources. The fragment shader wraps a user-authored effect: a fixed
//! preamble declares the entry point and the three inputs, and the effect's
//! text follows it verbatim.

use vstd::prelude::*;
use vstd::string::StringExecFns;

verus! {

/// The quad's corner positions in clip space, one unit out on each axis.
pub open spec fn spec_quad_positions() -> Seq<(i8, i8)> {
    seq![(-1i8, -1i8), (-1i8, 1i8), (1i8, 1i8), (1i8, -1i8)]
}

/// The order the corners are drawn in, a triangle strip.
pub open spec fn spec_quad_indices() -> Seq<u16> {
    seq![1u16, 2u16, 0u16, 3u16]
}

/// The full-screen quad's corner positions.
pub fn quad_positions() -> (r: Vec<(i8, i8)>)
    ensures
        r@ == spec_quad_positions(),
{
    let mut r: Vec<(i8, i8)> = Vec::new();
    r.push((-1, -1));
    r.push((-1, 1));
    r.push((1, 1));
    r.push((1, -1));
    proof {
        assert(r@ =~= spec_quad_positions());
    }
    r
}

/// The triangle-strip index order of the quad's corners.
pub fn quad_indices() -> (r: Vec<u16>)
    ensures
        r@ == spec_quad_indices(),
{
    let mut r: Vec<u16> = Vec::new();
    r.push(1);
    r.push(2);
    r.push(0);
    r.push(3);
    proof {
        assert(r@ =~= spec_quad_indices());
    }
    r
}

/// The pass-through vertex shader: the quad's plane coordinates go straight
/// to clip space with z = 0 and w = 1.
pub fn vertex_shader_source() -> (r: &'static str)
    ensures
        r@ == "#version 300 es\nin vec2 position;void main(){gl_Position=vec4(position,0,1);}"@,
{
    "#version 300 es\nin vec2 position;void main(){gl_Position=vec4(position,0,1);}"
}

/// The fragment shader's fixed preamble: the texture, time and resolution
/// inputs, the output slot, and a `main` that calls the user effect's
/// `mainImage` with the fragment's window coordinate.
pub open spec fn spec_fragment_preamble() -> Seq<char> {
    "#version 300 es\nprecision highp float;uniform sampler2D iChannel0;uniform float iTime;uniform vec3 iResolution;out vec4 _color_;void mainImage(out vec4, in vec2);void main() {mainImage(_color_,gl_FragCoord.xy);}"@
}

/// The full fragment shader: the fixed preamble, then the user-authored
/// effect text, unchanged.
pub fn fragment_shader_source(effect: &str) -> (r: String)
    ensures
        r@ == spec_fragment_preamble() + effect@,
{
    let mut s = String::from_str(
        "#version 300 es\nprecision highp float;uniform sampler2D iChannel0;uniform float iTime;uniform vec3 iResolution;out vec4 _color_;void mainImage(out vec4, in vec2);void main() {mainImage(_color_,gl_FragCoord.xy);}",
    );
    s.append(effect);
    s
}

} // verus!
