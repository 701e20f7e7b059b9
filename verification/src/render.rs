//! The work of one presented frame: the bytes to copy into the uniform
//! buffer, and the draw call to record where a pipeline is installed.

use crate::pipeline::UNIFORM_BINDING;
use crate::uniform::UniformState;
use vstd::prelude::*;

verus! {

/// One draw without vertex or index buffers.
#[derive(Clone, Copy, Debug, PartialEq, Eq, Structural)]
pub struct DrawCall {
    /// Index of the bind group that holds the uniform buffer.
    pub bind_group: u32,
    /// First vertex index.
    pub first_vertex: u32,
    /// Number of vertices.
    pub vertex_count: u32,
    /// First instance index.
    pub first_instance: u32,
    /// Number of instances.
    pub instance_count: u32,
}

/// The draw that covers the screen: six vertices that the vertex stage
/// places from their index, one instance.
pub open spec fn full_screen_draw() -> DrawCall {
    DrawCall {
        bind_group: UNIFORM_BINDING,
        first_vertex: 0,
        vertex_count: 6,
        first_instance: 0,
        instance_count: 1,
    }
}

/// The unit of work of one frame, with the uniform block as it was when the
/// frame was handed over.
#[derive(Clone, Copy, Debug, PartialEq, Eq, Structural)]
pub struct RenderCallback {
    pub uniform: UniformState,
}

impl RenderCallback {
    /// The bytes to write at the start of the uniform buffer. They are
    /// written every frame, whether or not a pipeline is installed.
    pub fn prepare(&self) -> (bytes: Vec<u8>)
        ensures
            bytes@ == self.uniform.layout(),
    {
        self.uniform.to_bytes()
    }

    /// The draw to record in this frame's render pass: the full-screen draw
    /// where a pipeline is installed, and none where it is not.
    pub fn paint(&self, pipeline_installed: bool) -> (draw: Option<DrawCall>)
        ensures
            draw == if pipeline_installed {
                Some(full_screen_draw())
            } else {
                None
            },
    {
        if pipeline_installed {
            Some(
                DrawCall {
                    bind_group: UNIFORM_BINDING,
                    first_vertex: 0,
                    vertex_count: 6,
                    first_instance: 0,
                    instance_count: 1,
                },
            )
        } else {
            None
        }
    }
}

impl Default for RenderCallback {
    /// The callback with the zeroed uniform block.
    fn default() -> (callback: RenderCallback)
        ensures
            callback.uniform == UniformState::zeroed(),
    {
        RenderCallback { uniform: UniformState::default() }
    }
}

} // verus!
