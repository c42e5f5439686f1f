//! Shader sources: the built-in default, the test that rejects a source
//! before it reaches the compiler, and the errors of a reload.

use vstd::prelude::*;
use crate::error::ShaderError;

verus! {

/// The built-in shader: it transforms each vertex by the camera's
/// view-projection matrix and passes the vertex colour through.
pub const DEFAULT_SHADER: &'static str = "struct CameraUniform {
    view_proj: mat4x4<f32>,
};

@group(0) @binding(0)
var<uniform> camera: CameraUniform;

struct VertexInput {
    @location(0) position: vec3<f32>,
    @location(1) color: vec3<f32>,
};

struct VertexOutput {
    @builtin(position) clip_position: vec4<f32>,
    @location(0) color: vec3<f32>,
};

@vertex fn vs_main(model: VertexInput) -> VertexOutput {
    var out: VertexOutput;
    out.color = model.color;
    out.clip_position = camera.view_proj * vec4<f32>(model.position, 1.0);
    return out;
}

@fragment fn fs_main(in: VertexOutput) -> @location(0) vec4<f32> {
    return vec4<f32>(in.color, 1.0);
}
";

/// Whether `c` is white space: one of the code points with the Unicode
/// property `White_Space`.
pub open spec fn is_whitespace(c: char) -> bool {
    let code = c as u32;
    ||| 0x09 <= code <= 0x0D
    ||| code == 0x20
    ||| code == 0x85
    ||| code == 0xA0
    ||| code == 0x1680
    ||| 0x2000 <= code <= 0x200A
    ||| code == 0x2028
    ||| code == 0x2029
    ||| code == 0x202F
    ||| code == 0x205F
    ||| code == 0x3000
}

/// Whether a source holds nothing to compile: it is empty or consists of
/// white space only.
pub open spec fn is_blank(source: Seq<char>) -> bool {
    forall|i: int| 0 <= i < source.len() ==> is_whitespace(#[trigger] source[i])
}

/// Tests one character for white space.
pub fn char_is_whitespace(c: char) -> (white: bool)
    ensures
        white == is_whitespace(c),
{
    let code: u32 = c as u32;
    (0x09 <= code && code <= 0x0D) || code == 0x20 || code == 0x85 || code == 0xA0 || code
        == 0x1680 || (0x2000 <= code && code <= 0x200A) || code == 0x2028 || code == 0x2029
        || code == 0x202F || code == 0x205F || code == 0x3000
}

/// Tests whether a source is empty or consists of white space only.
pub fn source_is_blank(source: &str) -> (blank: bool)
    ensures
        blank == is_blank(source@),
{
    let mut blank = true;
    for c in it: source.chars()
        invariant
            it.seq() == source@,
            blank == is_blank(source@.take(it.index())),
    {
        let white = char_is_whitespace(c);
        proof {
            let before = source@.take(it.index());
            let after = source@.take(it.index() + 1);
            assert(after[it.index()] == c);
            assert forall|i: int| 0 <= i < before.len() implies before[i] == after[i] by {}
            if blank && white {
                assert forall|i: int| 0 <= i < after.len() implies is_whitespace(
                    #[trigger] after[i],
                ) by {
                    if i < before.len() {
                        assert(is_whitespace(before[i]));
                    }
                }
            } else if !white {
                assert(!is_whitespace(after[it.index()]));
            } else {
                let j = choose|j: int| 0 <= j < before.len() && !is_whitespace(#[trigger] before[j]);
                assert(!is_whitespace(after[j]));
            }
        }
        blank = blank && white;
    }
    assert(source@.take(source@.len() as int) =~= source@);
    blank
}

/// Accepts a source for compilation unless it is empty or white space only.
pub fn validate_source(source: &str) -> (checked: Result<(), ShaderError>)
    ensures
        is_blank(source@) <==> checked == Err::<(), ShaderError>(ShaderError::EmptySource),
        !is_blank(source@) <==> checked is Ok,
{
    if source_is_blank(source) {
        Err(ShaderError::EmptySource)
    } else {
        Ok(())
    }
}

/// The default shader is a source that goes to the compiler: it is not blank.
/// (The characters of a string are known to the verifier by its literal only,
/// so the literal stands here once more; the proof fails if the two differ.)
pub proof fn lemma_default_shader_not_blank()
    ensures
        !is_blank(DEFAULT_SHADER@),
{
    reveal_strlit("struct CameraUniform {
    view_proj: mat4x4<f32>,
};

@group(0) @binding(0)
var<uniform> camera: CameraUniform;

struct VertexInput {
    @location(0) position: vec3<f32>,
    @location(1) color: vec3<f32>,
};

struct VertexOutput {
    @builtin(position) clip_position: vec4<f32>,
    @location(0) color: vec3<f32>,
};

@vertex fn vs_main(model: VertexInput) -> VertexOutput {
    var out: VertexOutput;
    out.color = model.color;
    out.clip_position = camera.view_proj * vec4<f32>(model.position, 1.0);
    return out;
}

@fragment fn fs_main(in: VertexOutput) -> @location(0) vec4<f32> {
    return vec4<f32>(in.color, 1.0);
}
");
    assert(DEFAULT_SHADER@.len() > 0);
    assert(DEFAULT_SHADER@[0] == 's');
    assert(!is_whitespace(DEFAULT_SHADER@[0]));
}

} // verus!
