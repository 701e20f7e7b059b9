use shadertoy_rs::compiler::{join_stages, CompileError, CompiledStages, Stage};
use shadertoy_rs::pipeline::{
    create_bind_group_layout, create_pipeline, BindGroupLayout, ENTRY_POINT, UNIFORM_BINDING,
};
use shadertoy_rs::render::{DrawCall, RenderCallback};

#[test]
fn both_stages_compiled() {
    let joined = join_stages(Ok(vec![1, 2, 3]), Ok(vec![4, 5]));
    assert_eq!(joined, Ok(CompiledStages { vertex: vec![1, 2, 3], fragment: vec![4, 5] }));
}

#[test]
fn fragment_failure_names_the_fragment_stage() {
    let joined = join_stages(Ok(vec![1]), Err(String::from("expected '}'")));
    assert_eq!(
        joined,
        Err(CompileError { stage: Stage::Fragment, message: String::from("expected '}'") })
    );
}

#[test]
fn vertex_failure_names_the_vertex_stage() {
    let joined = join_stages(Err(String::from("no main")), Ok(vec![9]));
    assert_eq!(
        joined,
        Err(CompileError { stage: Stage::Vertex, message: String::from("no main") })
    );
}

#[test]
fn vertex_failure_comes_first_where_both_fail() {
    let joined = join_stages(Err(String::from("v")), Err(String::from("f")));
    assert_eq!(joined, Err(CompileError { stage: Stage::Vertex, message: String::from("v") }));
}

#[test]
fn empty_code_is_still_code() {
    let joined = join_stages(Ok(vec![]), Ok(vec![]));
    assert_eq!(joined, Ok(CompiledStages { vertex: vec![], fragment: vec![] }));
}

#[test]
fn bind_group_layout_is_one_fragment_uniform() {
    assert_eq!(UNIFORM_BINDING, 0);
    assert_eq!(
        create_bind_group_layout(),
        BindGroupLayout {
            binding: 0,
            visibility: Stage::Fragment,
            has_dynamic_offset: false,
            min_binding_size: None,
        }
    );
}

#[test]
fn both_stages_enter_at_main() {
    assert_eq!(ENTRY_POINT, "main");
}

#[test]
fn pipeline_keeps_stages_and_format() {
    let stages = CompiledStages { vertex: vec![0x0723_0203, 1], fragment: vec![0x0723_0203, 2] };
    let pipeline = create_pipeline(stages, "Bgra8Unorm");
    assert_eq!(pipeline.vertex, vec![0x0723_0203, 1]);
    assert_eq!(pipeline.fragment, vec![0x0723_0203, 2]);
    assert_eq!(pipeline.target_format, "Bgra8Unorm");
    assert_eq!(pipeline.layout, create_bind_group_layout());
    assert_eq!(pipeline.vertex_buffers, 0);
    assert!(!pipeline.depth_stencil);
    assert_eq!(pipeline.sample_count, 1);
}

#[test]
fn same_stages_give_equal_pipelines() {
    let first = create_pipeline(CompiledStages { vertex: vec![1], fragment: vec![2] }, 44u32);
    let second = create_pipeline(CompiledStages { vertex: vec![1], fragment: vec![2] }, 44u32);
    assert_eq!(first, second);
}

#[test]
fn paint_draws_six_vertices_once_with_a_pipeline() {
    let callback = RenderCallback::default();
    assert_eq!(
        callback.paint(true),
        Some(DrawCall {
            bind_group: 0,
            first_vertex: 0,
            vertex_count: 6,
            first_instance: 0,
            instance_count: 1,
        })
    );
}

#[test]
fn paint_draws_nothing_without_a_pipeline() {
    assert_eq!(RenderCallback::default().paint(false), None);
}
