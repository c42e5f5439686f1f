//! The pipeline builder's plan: everything that is handed to the GPU when a
//! pipeline is built from a shader source.

use vstd::prelude::*;
use crate::bytes::is_native_words_image;
use crate::camera::{CameraUniform, UNIFORM_SIZE};
use crate::error::ShaderError;
use crate::shader::{is_blank, validate_source};
use crate::vertex::{BufferInit, BufferUsage, Vertex, VertexBufferLayout};

verus! {

/// The binding slot of the camera uniform in bind group 0.
pub const UNIFORM_BINDING: u32 = 0;

/// What a pipeline is built from. The color format of the target is the
/// surface's and is added where the pipeline is created.
#[derive(Clone, Debug)]
pub struct PipelinePlan {
    /// The shader source to compile.
    pub shader_source: String,
    /// Name of the vertex entry point in the source.
    pub vertex_entry: &'static str,
    /// Name of the fragment entry point in the source.
    pub fragment_entry: &'static str,
    /// Layout of the one vertex buffer.
    pub vertex_layout: VertexBufferLayout,
    /// The uniform buffer to allocate, with the camera's current matrix.
    pub uniform: BufferInit,
    /// The binding slot that the bind group gives the uniform buffer.
    pub uniform_binding: u32,
}

impl PipelinePlan {
    /// The plan is the one for `source` and `uniform`: it compiles exactly
    /// that source with the entry points `vs_main` and `fs_main`, reads
    /// vertices in the layout of the geometry table, and binds at slot 0 a
    /// uniform buffer of one matrix that starts out as `uniform`.
    pub open spec fn is_for(self, source: Seq<char>, uniform: CameraUniform) -> bool {
        &&& self.shader_source@ == source
        &&& self.vertex_entry@ == "vs_main"@
        &&& self.fragment_entry@ == "fs_main"@
        &&& self.vertex_layout.describes_vertex()
        &&& self.uniform.label@ == "Camera Buffer"@
        &&& self.uniform.usage == BufferUsage::Uniform
        &&& self.uniform.contents@.len() == UNIFORM_SIZE
        &&& is_native_words_image(self.uniform.contents@, uniform.words())
        &&& self.uniform_binding == UNIFORM_BINDING
    }
}

/// Plans the build of a pipeline from `source`, or refuses the source before
/// anything is compiled: an empty or white-space-only source is rejected, any
/// other source gets the plan for it.
pub fn prepare(source: &str, uniform: &CameraUniform) -> (planned: Result<
    PipelinePlan,
    ShaderError,
>)
    ensures
        is_blank(source@) ==> planned == Err::<PipelinePlan, ShaderError>(
            ShaderError::EmptySource,
        ),
        !is_blank(source@) ==> planned is Ok && planned->Ok_0.is_for(source@, *uniform),
{
    match validate_source(source) {
        Err(error) => Err(error),
        Ok(()) => Ok(
            PipelinePlan {
                shader_source: source.to_owned(),
                vertex_entry: "vs_main",
                fragment_entry: "fs_main",
                vertex_layout: Vertex::desc(),
                uniform: uniform.buffer_init(),
                uniform_binding: UNIFORM_BINDING,
            },
        ),
    }
}

} // verus!
