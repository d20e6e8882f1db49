use htgl::driver::DriverCall;
use htgl::info::build_info;
use htgl::Context;
use htgl::ShaderType;

fn plain_info() -> htgl::info::ContextInfo {
    build_info(84, 14, 14, 14, 65536, 256)
}

#[test]
fn release_while_alive_issues_delete() {
    let mut ctx = Context::new(plain_info());
    let vbo = ctx.new_vertex_buffer(7);
    let buffer = vbo.into_resource().expect("sole owner");
    assert_eq!(buffer.release(), Some(DriverCall::DeleteBuffer { name: 7 }));
}

#[test]
fn release_after_context_destroyed_issues_nothing() {
    let mut ctx = Context::new(plain_info());
    let vbo = ctx.new_vertex_buffer(7);
    ctx.destroy();
    let buffer = vbo.into_resource().expect("sole owner");
    assert_eq!(buffer.release(), None);
}

#[test]
fn shader_release_is_gated_on_liveness() {
    let mut ctx = Context::new(plain_info());
    let live = ctx.new_shader(ShaderType::VertexShader, String::from("void main() {}"), 3);
    let shader = live.into_resource().expect("sole owner");
    assert_eq!(shader.release(), Some(DriverCall::DeleteShader { name: 3 }));

    let mut ctx = Context::new(plain_info());
    let doomed = ctx.new_shader(ShaderType::FragmentShader, String::from("void main() {}"), 4);
    ctx.destroy();
    let shader = doomed.into_resource().expect("sole owner");
    assert_eq!(shader.release(), None);
}

#[test]
fn vertex_array_release_cascades_into_buffers() {
    let mut ctx = Context::new(plain_info());
    let vbo = ctx.new_vertex_buffer(11);
    let ibo = ctx.new_index_buffer(12);
    let vao = ctx.new_vertex_array_simple(
        &[(3, htgl::VertexAttributeType::Float, false)],
        vbo,
        Some(ibo),
        13,
    );
    let array = vao.into_resource().expect("sole owner");
    let calls = array.release();
    assert!(calls.contains(&DriverCall::DeleteVertexArray { name: 13 }));
    assert!(calls.contains(&DriverCall::DeleteBuffer { name: 11 }));
    assert!(calls.contains(&DriverCall::DeleteBuffer { name: 12 }));
    assert_eq!(calls.len(), 3);
}

#[test]
fn vertex_array_release_after_destroy_issues_nothing() {
    let mut ctx = Context::new(plain_info());
    let vbo = ctx.new_vertex_buffer(11);
    let ibo = ctx.new_index_buffer(12);
    let vao = ctx.new_vertex_array_simple(
        &[(3, htgl::VertexAttributeType::Float, false)],
        vbo,
        Some(ibo),
        13,
    );
    ctx.destroy();
    let array = vao.into_resource().expect("sole owner");
    assert_eq!(array.release(), Vec::<DriverCall>::new());
}

#[test]
fn shared_buffer_is_not_deleted_while_referenced() {
    let mut ctx = Context::new(plain_info());
    let vbo = ctx.new_vertex_buffer(21);
    let vao = ctx.new_vertex_array_simple(
        &[(2, htgl::VertexAttributeType::Short, false)],
        vbo.clone(),
        None,
        22,
    );
    // The vertex array still owns a reference, so the handle alone does
    // not surrender the buffer.
    assert!(vbo.into_resource().is_none());
    // Releasing the vertex array releases the buffer too.
    let calls = vao.into_resource().expect("sole owner").release();
    assert!(calls.contains(&DriverCall::DeleteVertexArray { name: 22 }));
    assert!(calls.contains(&DriverCall::DeleteBuffer { name: 21 }));
}

#[test]
fn program_release_cascades_into_shaders() {
    let mut ctx = Context::new(plain_info());
    let vs = ctx.new_shader(ShaderType::VertexShader, String::from("void main() {}"), 41);
    let fs = ctx.new_shader(ShaderType::FragmentShader, String::from("void main() {}"), 42);
    let program = ctx.new_program(&[vs, fs], 43);
    let resource = program.into_resource().expect("sole owner");
    let calls = resource.release();
    assert!(calls.contains(&DriverCall::DeleteProgram { name: 43 }));
    assert!(calls.contains(&DriverCall::DeleteShader { name: 41 }));
    assert!(calls.contains(&DriverCall::DeleteShader { name: 42 }));
    assert_eq!(calls.len(), 3);
}

#[test]
fn program_release_after_destroy_issues_nothing() {
    let mut ctx = Context::new(plain_info());
    let vs = ctx.new_shader(ShaderType::VertexShader, String::from("void main() {}"), 41);
    let program = ctx.new_program(&[vs], 43);
    ctx.destroy();
    let resource = program.into_resource().expect("sole owner");
    assert_eq!(resource.release(), Vec::<DriverCall>::new());
}
