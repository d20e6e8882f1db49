use htgl::buffer::indexbuffer::new_index_buffer_editor;
use htgl::handle::HandleAccess;
use htgl::buffer::BufferType;
use htgl::driver::BufferPayload;
use htgl::driver::DriverCall;
use htgl::info::build_info;
use htgl::renderer::IndexType;
use htgl::shader::new_shader_info_accessor;
use htgl::Context;
use htgl::PrimitiveMode;
use htgl::ShaderType;
use htgl::VertexAttributeType;

fn plain_info() -> htgl::info::ContextInfo {
    build_info(84, 14, 14, 14, 65536, 256)
}

#[test]
fn index_buffer_editor_absent_round_trip() {
    let mut ctx = Context::new(plain_info());
    let vbo = ctx.new_vertex_buffer(1);
    let vao = ctx.new_vertex_array_simple(
        &[(3, VertexAttributeType::Float, false)],
        vbo,
        None,
        2,
    );
    // A vertex array constructed without an index buffer never yields an
    // editor, no matter how often one is requested.
    assert!(ctx.edit_index_buffer(&vao).is_none());
    assert!(ctx.edit_index_buffer(&vao).is_none());
    assert!(ctx.edit_index_buffer(&vao).is_none());
}

#[test]
fn index_buffer_editor_present_and_uploading() {
    let mut ctx = Context::new(plain_info());
    let vbo = ctx.new_vertex_buffer(1);
    let ibo = ctx.new_index_buffer(2);
    let vao = ctx.new_vertex_array_simple(
        &[(3, VertexAttributeType::Float, false)],
        vbo,
        Some(ibo),
        3,
    );
    let _ = ctx.take_calls();
    let mut editor = ctx.edit_index_buffer(&vao).expect("index buffer attached");
    editor.data_u16(&mut ctx, vec![0, 1, 2]);
    editor.sub_data_u32(&mut ctx, vec![9], 4);
    let calls = ctx.take_calls();
    // The vertex array was still bound from its construction, so no
    // re-bind precedes the uploads.
    assert_eq!(
        calls,
        vec![
            DriverCall::BufferData {
                target: BufferType::IndexBuffer,
                data: BufferPayload::ElementsU16(vec![0, 1, 2]),
            },
            DriverCall::BufferSubData {
                target: BufferType::IndexBuffer,
                byte_offset: 4,
                data: BufferPayload::ElementsU32(vec![9]),
            },
        ]
    );
}

#[test]
fn index_buffer_editor_without_buffer_records_nothing() {
    let mut ctx = Context::new(plain_info());
    let vao = ctx.new_vertex_array(&[], None, 4);
    let _ = ctx.take_calls();
    let mut editor = new_index_buffer_editor(&mut ctx, &vao);
    editor.data_u8(&mut ctx, vec![1, 2, 3]);
    editor.data_u32(&mut ctx, vec![7]);
    editor.sub_data_u8(&mut ctx, vec![1], 0);
    editor.sub_data_u16(&mut ctx, vec![2], 0);
    assert!(ctx.take_calls().is_empty());
}

#[test]
fn vertex_buffer_editing_uploads_bytes() {
    let mut ctx = Context::new(plain_info());
    let vbo = ctx.new_vertex_buffer(5);
    let mut editor = ctx.edit_vertex_buffer(&vbo);
    editor.data(&mut ctx, vec![1, 2, 3, 4]);
    editor.sub_data(&mut ctx, vec![9, 9], 2);
    let calls = ctx.take_calls();
    assert_eq!(
        calls,
        vec![
            DriverCall::BindBuffer { target: BufferType::VertexBuffer, name: 5 },
            DriverCall::BufferData {
                target: BufferType::VertexBuffer,
                data: BufferPayload::Bytes(vec![1, 2, 3, 4]),
            },
            DriverCall::BufferSubData {
                target: BufferType::VertexBuffer,
                byte_offset: 2,
                data: BufferPayload::Bytes(vec![9, 9]),
            },
        ]
    );
}

#[test]
fn uniform_buffer_editing_uploads_bytes() {
    let mut ctx = Context::new(plain_info());
    let ubo = ctx.new_uniform_buffer(6);
    let mut editor = ctx.edit_uniform_buffer(&ubo);
    editor.data(&mut ctx, vec![8; 16]);
    let calls = ctx.take_calls();
    assert_eq!(
        calls,
        vec![
            DriverCall::BindBuffer { target: BufferType::UniformBuffer, name: 6 },
            DriverCall::BufferData {
                target: BufferType::UniformBuffer,
                data: BufferPayload::Bytes(vec![8; 16]),
            },
        ]
    );
}

#[test]
fn shader_and_program_creation_record_build_calls() {
    let mut ctx = Context::new(plain_info());
    let vs = ctx.new_shader(ShaderType::VertexShader, String::from("vertex source"), 11);
    let fs = ctx.new_shader(ShaderType::FragmentShader, String::from("fragment source"), 12);
    let _program = ctx.new_program(&[vs, fs], 13);
    let calls = ctx.take_calls();
    assert_eq!(
        calls,
        vec![
            DriverCall::ShaderSource { shader: 11, source: String::from("vertex source") },
            DriverCall::CompileShader { shader: 11 },
            DriverCall::ShaderSource { shader: 12, source: String::from("fragment source") },
            DriverCall::CompileShader { shader: 12 },
            DriverCall::AttachShader { program: 13, shader: 11 },
            DriverCall::AttachShader { program: 13, shader: 12 },
            DriverCall::LinkProgram { program: 13 },
        ]
    );
}

#[test]
fn drawing_flow_restores_and_draws() {
    let mut ctx = Context::new(plain_info());
    let vbo = ctx.new_vertex_buffer(1);
    let vao = ctx.new_vertex_array_simple(
        &[(3, VertexAttributeType::Float, false)],
        vbo,
        None,
        2,
    );
    let vs = ctx.new_shader(ShaderType::VertexShader, String::from("v"), 3);
    let program = ctx.new_program(&[vs], 4);
    let _ = ctx.take_calls();

    let mut renderer = ctx.renderer();
    renderer.clear(&mut ctx);
    renderer.use_vertex_array(&mut ctx, &vao);
    renderer.use_program(&mut ctx, &program);
    renderer.draw_elements_u16(&mut ctx, PrimitiveMode::Triangles, 3, 0);

    let calls = ctx.take_calls();
    // The vertex array is still bound from its construction, so using it
    // for rendering appends no redundant bind call.
    assert_eq!(
        calls,
        vec![
            DriverCall::Clear,
            DriverCall::UseProgram { name: 4 },
            DriverCall::DrawElements {
                mode: PrimitiveMode::Triangles,
                count: 3,
                index_type: IndexType::UnsignedShort,
                start: 0,
            },
        ]
    );
}

#[test]
fn indexed_draw_variants_carry_their_index_type() {
    let mut ctx = Context::new(plain_info());
    let mut renderer = ctx.renderer();
    renderer.draw_elements_u8(&mut ctx, PrimitiveMode::Triangles, 3, 0);
    renderer.draw_elements_u32(&mut ctx, PrimitiveMode::Triangles, 6, 12);
    let calls = ctx.take_calls();
    assert_eq!(
        calls,
        vec![
            DriverCall::DrawElements {
                mode: PrimitiveMode::Triangles,
                count: 3,
                index_type: IndexType::UnsignedByte,
                start: 0,
            },
            DriverCall::DrawElements {
                mode: PrimitiveMode::Triangles,
                count: 6,
                index_type: IndexType::UnsignedInt,
                start: 12,
            },
        ]
    );
}

#[test]
fn buffer_object_records_against_its_own_target() {
    // The low-level buffer methods append into a caller-owned log; the
    // editors are the checked way in, but the records are the same.
    let mut ctx = Context::new(plain_info());
    let ubo = ctx.new_uniform_buffer(30);
    let mut log: Vec<DriverCall> = Vec::new();
    ubo.access().data(BufferPayload::Bytes(vec![1, 2]), &mut log);
    ubo.access().sub_data(BufferPayload::Bytes(vec![3]), 1, &mut log);
    assert_eq!(
        log,
        vec![
            DriverCall::BufferData {
                target: BufferType::UniformBuffer,
                data: BufferPayload::Bytes(vec![1, 2]),
            },
            DriverCall::BufferSubData {
                target: BufferType::UniformBuffer,
                byte_offset: 1,
                data: BufferPayload::Bytes(vec![3]),
            },
        ]
    );
}

#[test]
fn take_calls_drains_the_log() {
    let mut ctx = Context::new(plain_info());
    let vbo = ctx.new_vertex_buffer(1);
    ctx.edit_vertex_buffer(&vbo);
    assert_eq!(ctx.take_calls().len(), 1);
    assert!(ctx.take_calls().is_empty());
    assert!(ctx.calls().is_empty());
}

#[test]
fn context_info_is_kept() {
    let info = build_info(84, 14, 13, 12, 65536, 256);
    let ctx = Context::new(info);
    let kept = ctx.get_info();
    assert_eq!(kept.uniform_buffer.max_bindings, 84);
    assert_eq!(kept.uniform_buffer.max_vertex_blocks, 14);
    assert_eq!(kept.uniform_buffer.max_geometry_blocks, 13);
    assert_eq!(kept.uniform_buffer.max_fragment_blocks, 12);
    assert_eq!(kept.uniform_buffer.max_block_size, 65536);
    assert_eq!(kept.uniform_buffer.offset_alignment, 256);
}

#[test]
fn shader_info_accessor_reports_as_data() {
    let accessor = new_shader_info_accessor(false, String::from("syntax error on line 3"));
    assert!(!accessor.get_compile_status());
    assert_eq!(accessor.get_info_log(), "syntax error on line 3");
}

#[test]
fn vertex_array_reports_its_index_buffer() {
    let mut ctx = Context::new(plain_info());
    let vbo = ctx.new_vertex_buffer(1);
    let ibo = ctx.new_index_buffer(2);
    let with_ib = ctx.new_vertex_array_simple(
        &[(2, VertexAttributeType::Short, false)],
        vbo.clone(),
        Some(ibo),
        3,
    );
    let without_ib = ctx.new_vertex_array_simple(
        &[(2, VertexAttributeType::Short, false)],
        vbo,
        None,
        4,
    );
    assert!(with_ib.access().index_buffer().is_some());
    assert_eq!(with_ib.access().index_buffer().unwrap().id, 2);
    assert!(without_ib.access().index_buffer().is_none());
}
