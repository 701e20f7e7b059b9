//! What a compilation attempt yields: the binary code of both stages, or
//! the error of the stage that failed.

use vstd::prelude::*;

verus! {

/// The two programmable stages of the pipeline.
#[derive(Clone, Copy, Debug, PartialEq, Eq, Structural)]
pub enum Stage {
    /// The fixed stage that emits the full-screen triangle.
    Vertex,
    /// The stage the user edits.
    Fragment,
}

/// A failed compilation: the stage and the compiler's diagnostic.
#[derive(Clone, Debug, PartialEq, Eq)]
pub struct CompileError {
    pub stage: Stage,
    pub message: String,
}

/// A `CompileError` with its message as a sequence of characters.
pub struct CompileErrorView {
    pub stage: Stage,
    pub message: Seq<char>,
}

impl View for CompileError {
    type V = CompileErrorView;

    open spec fn view(&self) -> CompileErrorView {
        CompileErrorView { stage: self.stage, message: self.message@ }
    }
}

/// The binary code of both stages, compiled in one attempt.
#[derive(Clone, Debug, PartialEq, Eq)]
pub struct CompiledStages {
    pub vertex: Vec<u32>,
    pub fragment: Vec<u32>,
}

/// A `CompiledStages` with its code as sequences of words.
pub struct CompiledStagesView {
    pub vertex: Seq<u32>,
    pub fragment: Seq<u32>,
}

impl View for CompiledStages {
    type V = CompiledStagesView;

    open spec fn view(&self) -> CompiledStagesView {
        CompiledStagesView { vertex: self.vertex@, fragment: self.fragment@ }
    }
}

/// What the compiler returned for one stage: its binary code, or its
/// diagnostic.
pub open spec fn stage_output(output: Result<Vec<u32>, String>) -> Result<Seq<u32>, Seq<char>> {
    match output {
        Ok(code) => Ok(code@),
        Err(message) => Err(message@),
    }
}

/// The outcome of an attempt from the outputs of its two compilations. The
/// attempt succeeds where both stages compiled. Otherwise it fails with the
/// error of the vertex stage where that stage failed, else with that of the
/// fragment stage.
pub open spec fn attempt_outcome(
    vertex: Result<Seq<u32>, Seq<char>>,
    fragment: Result<Seq<u32>, Seq<char>>,
) -> Result<CompiledStagesView, CompileErrorView> {
    match (vertex, fragment) {
        (Ok(v), Ok(f)) => Ok(CompiledStagesView { vertex: v, fragment: f }),
        (Err(message), _) => Err(CompileErrorView { stage: Stage::Vertex, message }),
        (_, Err(message)) => Err(CompileErrorView { stage: Stage::Fragment, message }),
    }
}

/// The view of an attempt's outcome.
pub open spec fn outcome_view(outcome: Result<CompiledStages, CompileError>) -> Result<
    CompiledStagesView,
    CompileErrorView,
> {
    match outcome {
        Ok(stages) => Ok(stages@),
        Err(error) => Err(error@),
    }
}

/// Joins the outputs of the two compilations of one attempt.
pub fn join_stages(vertex: Result<Vec<u32>, String>, fragment: Result<Vec<u32>, String>) -> (outcome:
    Result<CompiledStages, CompileError>)
    ensures
        outcome_view(outcome) == attempt_outcome(stage_output(vertex), stage_output(fragment)),
{
    match vertex {
        Err(message) => Err(CompileError { stage: Stage::Vertex, message }),
        Ok(v) => match fragment {
            Err(message) => Err(CompileError { stage: Stage::Fragment, message }),
            Ok(f) => Ok(CompiledStages { vertex: v, fragment: f }),
        },
    }
}

} // verus!
