//! The camera record and the uniform that carries its matrix to the GPU.
//!
//! The matrix itself is floating-point work and is computed outside this
//! crate. Here stand the record with the fixed placement of the camera, the
//! one field that changes over a session (the aspect, kept exact as the two
//! dimensions it is the ratio of), and the byte image of the uniform.

use vstd::prelude::*;
use crate::bytes::{
    is_native_words_image, lemma_words_image_round_trip, words_image, words_of_image,
    words_to_bytes, ByteOrder,
};
use crate::ieee::{
    SINGLE_FORTY_FIVE, SINGLE_HUNDRED, SINGLE_ONE, SINGLE_TENTH, SINGLE_TWO, SINGLE_ZERO,
};
use crate::vertex::{BufferInit, BufferUsage};

verus! {

/// Size in bytes of the camera uniform: one 4x4 matrix of single-precision
/// values.
pub const UNIFORM_SIZE: u64 = 64;

/// The ratio of width to height of the picture, kept as the two dimensions in
/// pixels.
#[derive(Clone, Copy, Debug, PartialEq, Eq, Structural)]
pub struct Aspect {
    /// Width in pixels.
    pub width: u32,
    /// Height in pixels.
    pub height: u32,
}

impl Aspect {
    /// Both dimensions are positive, so the ratio is a positive finite number.
    pub open spec fn is_proper(self) -> bool {
        self.width > 0 && self.height > 0
    }
}

/// Where the camera stands and how it projects. Positions, directions, the
/// field of view (in degrees) and the clipping distances are single-precision
/// bit patterns.
#[derive(Clone, Copy, Debug)]
pub struct Camera {
    /// Position of the camera.
    pub eye: [u32; 3],
    /// The point the camera looks at.
    pub target: [u32; 3],
    /// The direction that is up in the picture.
    pub up: [u32; 3],
    /// Ratio of width to height of the picture.
    pub aspect: Aspect,
    /// Vertical field of view, in degrees.
    pub fovy: u32,
    /// Distance of the near clipping plane.
    pub znear: u32,
    /// Distance of the far clipping plane.
    pub zfar: u32,
}

impl Camera {
    /// The camera of a new session: two units back on the z axis, looking at
    /// the origin, y pointing up, a field of view of 45 degrees, and clipping
    /// planes at 0.1 and 100.
    pub open spec fn placed(aspect: Aspect) -> Camera {
        Camera {
            eye: [SINGLE_ZERO, SINGLE_ZERO, SINGLE_TWO],
            target: [SINGLE_ZERO, SINGLE_ZERO, SINGLE_ZERO],
            up: [SINGLE_ZERO, SINGLE_ONE, SINGLE_ZERO],
            aspect,
            fovy: SINGLE_FORTY_FIVE,
            znear: SINGLE_TENTH,
            zfar: SINGLE_HUNDRED,
        }
    }

    /// The record with another aspect and everything else as it is.
    pub open spec fn with_aspect(self, aspect: Aspect) -> Camera {
        Camera { aspect, ..self }
    }

    /// Creates the camera of a new session for a picture of the given size.
    pub fn new(width: u32, height: u32) -> (camera: Camera)
        ensures
            camera == Camera::placed(Aspect { width, height }),
    {
        Camera {
            eye: [SINGLE_ZERO, SINGLE_ZERO, SINGLE_TWO],
            target: [SINGLE_ZERO, SINGLE_ZERO, SINGLE_ZERO],
            up: [SINGLE_ZERO, SINGLE_ONE, SINGLE_ZERO],
            aspect: Aspect { width, height },
            fovy: SINGLE_FORTY_FIVE,
            znear: SINGLE_TENTH,
            zfar: SINGLE_HUNDRED,
        }
    }

    /// Sets the aspect to `width : height` and changes nothing else.
    pub fn set_aspect(&mut self, width: u32, height: u32)
        ensures
            *final(self) == old(self).with_aspect(Aspect { width, height }),
    {
        self.aspect = Aspect { width, height };
    }
}

/// The camera's view-projection matrix as the shader reads it: four groups of
/// four single-precision bit patterns.
#[derive(Clone, Copy, Debug)]
pub struct CameraUniform {
    /// The matrix, group by group.
    pub view_proj: [[u32; 4]; 4],
}

impl CameraUniform {
    /// The sixteen values of the matrix in buffer order.
    pub open spec fn words(self) -> Seq<u32> {
        Seq::new(16, |k: int| self.view_proj@[k / 4]@[k % 4])
    }

    /// The uniform of the identity matrix.
    pub fn new() -> (uniform: CameraUniform)
        ensures
            forall|i: int, j: int|
                0 <= i < 4 && 0 <= j < 4 ==> #[trigger] uniform.view_proj@[i]@[j] == (if i == j {
                    SINGLE_ONE
                } else {
                    SINGLE_ZERO
                }),
    {
        CameraUniform {
            view_proj: [
                [SINGLE_ONE, SINGLE_ZERO, SINGLE_ZERO, SINGLE_ZERO],
                [SINGLE_ZERO, SINGLE_ONE, SINGLE_ZERO, SINGLE_ZERO],
                [SINGLE_ZERO, SINGLE_ZERO, SINGLE_ONE, SINGLE_ZERO],
                [SINGLE_ZERO, SINGLE_ZERO, SINGLE_ZERO, SINGLE_ONE],
            ],
        }
    }

    /// The sixteen values of the matrix in buffer order.
    pub fn to_words(&self) -> (words: Vec<u32>)
        ensures
            words@ == self.words(),
    {
        let mut words: Vec<u32> = Vec::new();
        let mut i: usize = 0;
        while i < 4
            invariant
                i <= 4,
                words@.len() == 4 * i,
                forall|k: int| 0 <= k < 4 * i ==> words@[k] == self.view_proj@[k / 4]@[k % 4],
            decreases 4 - i,
        {
            let group = self.view_proj[i];
            words.push(group[0]);
            words.push(group[1]);
            words.push(group[2]);
            words.push(group[3]);
            i += 1;
        }
        assert(words@ =~= self.words());
        words
    }

    /// The uniform as the bytes of the GPU buffer that holds it.
    pub fn to_bytes(&self) -> (bytes: Vec<u8>)
        ensures
            is_native_words_image(bytes@, self.words()),
            bytes@.len() == UNIFORM_SIZE,
    {
        let words = self.to_words();
        words_to_bytes(&words)
    }

    /// The uniform buffer that starts out with this matrix.
    pub fn buffer_init(&self) -> (init: BufferInit)
        ensures
            init.usage == BufferUsage::Uniform,
            init.label@ == "Camera Buffer"@,
            is_native_words_image(init.contents@, self.words()),
            init.contents@.len() == UNIFORM_SIZE,
    {
        BufferInit { label: "Camera Buffer", contents: self.to_bytes(), usage: BufferUsage::Uniform }
    }
}

/// Reading the byte image of the uniform back, in the byte order it was
/// written in, yields the sixteen values of the matrix, bit for bit, and this
/// in either byte order.
pub proof fn lemma_uniform_reads_back(uniform: CameraUniform, bytes: Seq<u8>)
    requires
        is_native_words_image(bytes, uniform.words()),
    ensures
        bytes.len() == UNIFORM_SIZE,
        exists|order: ByteOrder|
            bytes == #[trigger] words_image(order, uniform.words()) && words_of_image(order, bytes)
                == uniform.words(),
{
    lemma_words_image_round_trip(ByteOrder::Little, uniform.words());
    lemma_words_image_round_trip(ByteOrder::Big, uniform.words());
}

} // verus!
