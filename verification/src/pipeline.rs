//! The description of the render pipeline that the host builds on the GPU.
//!
//! Everything about the pipeline but the two shader stages and the format of
//! the surface is fixed: it reads one uniform buffer in the fragment stage,
//! takes no vertex buffers, and writes one color target without depth,
//! stencil or multisampling.

use crate::compiler::{CompiledStages, CompiledStagesView, Stage};
use vstd::prelude::*;

verus! {

/// The binding slot of the uniform buffer.
pub const UNIFORM_BINDING: u32 = 0;

/// The name of the entry point of both stages.
pub const ENTRY_POINT: &'static str = "main";

/// The layout of the pipeline's single bind group: one uniform buffer.
#[derive(Clone, Copy, Debug, PartialEq, Eq, Structural)]
pub struct BindGroupLayout {
    /// The binding slot of the buffer.
    pub binding: u32,
    /// The one stage that sees the buffer.
    pub visibility: Stage,
    /// Whether the buffer is bound with a dynamic offset.
    pub has_dynamic_offset: bool,
    /// The least size a bound buffer must have, where one is asked for.
    pub min_binding_size: Option<u64>,
}

/// The layout every pipeline of this program has.
pub open spec fn bind_group_layout() -> BindGroupLayout {
    BindGroupLayout {
        binding: UNIFORM_BINDING,
        visibility: Stage::Fragment,
        has_dynamic_offset: false,
        min_binding_size: None,
    }
}

/// Describes the bind group layout: a uniform buffer at slot 0 that the
/// fragment stage alone sees, without dynamic offset or minimum size.
pub fn create_bind_group_layout() -> (layout: BindGroupLayout)
    ensures
        layout == bind_group_layout(),
{
    BindGroupLayout {
        binding: UNIFORM_BINDING,
        visibility: Stage::Fragment,
        has_dynamic_offset: false,
        min_binding_size: None,
    }
}

/// A render pipeline as the host is to build it. `F` is the host's type for
/// the format of the surface drawn to.
#[derive(Clone, Debug, PartialEq, Eq)]
pub struct Pipeline<F> {
    /// Binary code of the vertex stage.
    pub vertex: Vec<u32>,
    /// Binary code of the fragment stage.
    pub fragment: Vec<u32>,
    /// Format of the single color target.
    pub target_format: F,
    /// Layout of the single bind group.
    pub layout: BindGroupLayout,
    /// Number of vertex buffers.
    pub vertex_buffers: u32,
    /// Whether a depth and stencil attachment is used.
    pub depth_stencil: bool,
    /// Samples per pixel.
    pub sample_count: u32,
}

/// A `Pipeline` with its code as sequences of words.
pub struct PipelineView<F> {
    pub vertex: Seq<u32>,
    pub fragment: Seq<u32>,
    pub target_format: F,
    pub layout: BindGroupLayout,
    pub vertex_buffers: u32,
    pub depth_stencil: bool,
    pub sample_count: u32,
}

impl<F> View for Pipeline<F> {
    type V = PipelineView<F>;

    open spec fn view(&self) -> PipelineView<F> {
        PipelineView {
            vertex: self.vertex@,
            fragment: self.fragment@,
            target_format: self.target_format,
            layout: self.layout,
            vertex_buffers: self.vertex_buffers,
            depth_stencil: self.depth_stencil,
            sample_count: self.sample_count,
        }
    }
}

/// The pipeline for the stages of one attempt and a target format.
pub open spec fn pipeline_for<F>(stages: CompiledStagesView, target_format: F) -> PipelineView<F> {
    PipelineView {
        vertex: stages.vertex,
        fragment: stages.fragment,
        target_format,
        layout: bind_group_layout(),
        vertex_buffers: 0,
        depth_stencil: false,
        sample_count: 1,
    }
}

/// Describes the pipeline for the stages of one attempt. Both stages come
/// from the same attempt by construction. The description never fails; it is
/// the host's build on the GPU that is not expected to.
pub fn create_pipeline<F>(stages: CompiledStages, target_format: F) -> (pipeline: Pipeline<F>)
    ensures
        pipeline@ == pipeline_for(stages@, target_format),
{
    Pipeline {
        vertex: stages.vertex,
        fragment: stages.fragment,
        target_format,
        layout: create_bind_group_layout(),
        vertex_buffers: 0,
        depth_stencil: false,
        sample_count: 1,
    }
}

} // verus!
