use pulsar::error::FatalError;
use pulsar::pipeline::{
    build_pipeline, engine_binding_layout, engine_shader_interface, BindingLayout, CullMode,
    FrontFace, Topology,
};

#[test]
fn engine_pipeline_builds_with_fixed_policy() {
    let p = build_pipeline(Some(engine_shader_interface()), engine_binding_layout()).unwrap();
    assert_eq!(p.layout, engine_binding_layout());
    assert_eq!(p.topology, Topology::TriangleList);
    assert_eq!(p.front_face, FrontFace::Ccw);
    assert_eq!(p.cull_mode, CullMode::Disabled);
}

#[test]
fn failed_shader_compilation_is_fatal() {
    assert_eq!(
        build_pipeline(None, engine_binding_layout()).unwrap_err(),
        FatalError::ShaderCompileFailure
    );
}

#[test]
fn layout_out_of_lockstep_is_rejected() {
    let shader = engine_shader_interface();
    let wrong_slot = BindingLayout { binding: 1, ..engine_binding_layout() };
    assert_eq!(
        build_pipeline(Some(shader), wrong_slot).unwrap_err(),
        FatalError::PipelineLayoutMismatch
    );
    let wrong_size = BindingLayout { min_size: 32, ..engine_binding_layout() };
    assert_eq!(
        build_pipeline(Some(shader), wrong_size).unwrap_err(),
        FatalError::PipelineLayoutMismatch
    );
    let hidden_from_vertex = BindingLayout { visible_vertex: false, ..engine_binding_layout() };
    assert_eq!(
        build_pipeline(Some(shader), hidden_from_vertex).unwrap_err(),
        FatalError::PipelineLayoutMismatch
    );
}

#[test]
fn extra_visibility_still_matches() {
    let mut shader = engine_shader_interface();
    shader.reads_in_fragment = false;
    let layout = engine_binding_layout();
    assert!(build_pipeline(Some(shader), layout).is_ok());
}
