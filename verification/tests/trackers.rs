use htgl::buffer::indexbuffer::new_index_buffer_editor;
use htgl::buffer::BufferType;
use htgl::driver::DriverCall;
use htgl::info::build_info;
use htgl::tracker::TrackerIdGenerator;
use htgl::Context;
use htgl::PrimitiveMode;

fn plain_info() -> htgl::info::ContextInfo {
    build_info(84, 14, 14, 14, 65536, 256)
}

fn count_binds_of(calls: &[DriverCall], name: u32) -> usize {
    calls
        .iter()
        .filter(|call| matches!(call, DriverCall::BindBuffer { name: n, .. } if *n == name))
        .count()
}

fn count_vao_binds_of(calls: &[DriverCall], name: u32) -> usize {
    calls
        .iter()
        .filter(|call| matches!(call, DriverCall::BindVertexArray { name: n } if *n == name))
        .count()
}

#[test]
fn tracker_idempotence() {
    let mut ctx = Context::new(plain_info());
    let vbo = ctx.new_vertex_buffer(7);
    ctx.edit_vertex_buffer(&vbo);
    ctx.edit_vertex_buffer(&vbo);
    let calls = ctx.take_calls();
    assert_eq!(
        calls,
        vec![DriverCall::BindBuffer { target: BufferType::VertexBuffer, name: 7 }]
    );
}

#[test]
fn tracker_rebinds_after_interleaving() {
    let mut ctx = Context::new(plain_info());
    let a = ctx.new_vertex_buffer(10);
    let b = ctx.new_vertex_buffer(20);
    ctx.edit_vertex_buffer(&a);
    ctx.edit_vertex_buffer(&b);
    ctx.edit_vertex_buffer(&a);
    let calls = ctx.take_calls();
    assert_eq!(calls.len(), 3);
    assert_eq!(count_binds_of(&calls, 10), 2);
    assert_eq!(count_binds_of(&calls, 20), 1);
}

#[test]
fn render_restore_rebinds_render_target_once() {
    let mut ctx = Context::new(plain_info());
    let vao_a = ctx.new_vertex_array(&[], None, 100);
    let vao_b = ctx.new_vertex_array(&[], None, 200);
    let _ = ctx.take_calls();

    let mut renderer = ctx.renderer();
    renderer.use_vertex_array(&mut ctx, &vao_a);
    new_index_buffer_editor(&mut ctx, &vao_b);
    renderer.draw_arrays(&mut ctx, PrimitiveMode::Triangles, 0, 3);

    let calls = ctx.take_calls();
    assert_eq!(count_vao_binds_of(&calls, 100), 2);
    assert_eq!(count_vao_binds_of(&calls, 200), 1);
    assert_eq!(
        calls,
        vec![
            DriverCall::BindVertexArray { name: 100 },
            DriverCall::BindVertexArray { name: 200 },
            DriverCall::BindVertexArray { name: 100 },
            DriverCall::DrawArrays { mode: PrimitiveMode::Triangles, first: 0, count: 3 },
        ]
    );
}

#[test]
fn render_restore_without_target_is_silent() {
    let mut ctx = Context::new(plain_info());
    let mut renderer = ctx.renderer();
    renderer.draw_arrays(&mut ctx, PrimitiveMode::Triangles, 0, 3);
    let calls = ctx.take_calls();
    assert_eq!(
        calls,
        vec![DriverCall::DrawArrays { mode: PrimitiveMode::Triangles, first: 0, count: 3 }]
    );
}

#[test]
fn rendering_bind_is_deduplicated_too() {
    let mut ctx = Context::new(plain_info());
    let vao = ctx.new_vertex_array(&[], None, 31);
    // Constructing a second vertex array leaves that one bound.
    let _other = ctx.new_vertex_array(&[], None, 32);
    let _ = ctx.take_calls();
    let mut renderer = ctx.renderer();
    renderer.use_vertex_array(&mut ctx, &vao);
    renderer.use_vertex_array(&mut ctx, &vao);
    renderer.draw_arrays(&mut ctx, PrimitiveMode::Triangles, 0, 6);
    let calls = ctx.take_calls();
    assert_eq!(count_vao_binds_of(&calls, 31), 1);
}

#[test]
fn identifier_generator_yields_distinct_increasing_ids() {
    let mut generator = TrackerIdGenerator::new();
    let mut previous: u32 = 0;
    for _ in 0..10_000 {
        let id = generator.new_id();
        assert!(id.value() > previous);
        previous = id.value();
    }
}

#[test]
fn identifiers_are_never_zero() {
    let mut generator = TrackerIdGenerator::new();
    for _ in 0..100 {
        assert_ne!(generator.new_id().value(), 0);
    }
}
