use htgl::buffer::BufferType;
use htgl::driver::DriverCall;
use htgl::info::build_info;
use htgl::vertexarray::build_single_buffer_layout;
use htgl::Context;
use htgl::VertexAttributeType;

fn plain_info() -> htgl::info::ContextInfo {
    build_info(84, 14, 14, 14, 65536, 256)
}

#[test]
fn layout_builder_is_deterministic() {
    let mut ctx = Context::new(plain_info());
    let vbo = ctx.new_vertex_buffer(1);
    let layout = build_single_buffer_layout(
        &[(3, VertexAttributeType::Float, false), (4, VertexAttributeType::UnsignedByte, true)],
        &vbo,
    );
    assert_eq!(layout.len(), 2);

    assert_eq!(layout[0].index, 0);
    assert_eq!(layout[0].size, 3);
    assert_eq!(layout[0].attribute_type, VertexAttributeType::Float);
    assert!(!layout[0].normalized);
    assert_eq!(layout[0].offset, 0);
    assert_eq!(layout[0].stride, 16);

    assert_eq!(layout[1].index, 1);
    assert_eq!(layout[1].size, 4);
    assert_eq!(layout[1].attribute_type, VertexAttributeType::UnsignedByte);
    assert!(layout[1].normalized);
    assert_eq!(layout[1].offset, 12);
    assert_eq!(layout[1].stride, 16);
}

#[test]
fn layout_builder_single_field_edge_case() {
    let mut ctx = Context::new(plain_info());
    let vbo = ctx.new_vertex_buffer(1);
    let layout = build_single_buffer_layout(&[(2, VertexAttributeType::Short, false)], &vbo);
    assert_eq!(layout.len(), 1);
    assert_eq!(layout[0].index, 0);
    assert_eq!(layout[0].offset, 0);
    assert_eq!(layout[0].stride, 4);
}

#[test]
fn layout_builder_empty_field_list() {
    let mut ctx = Context::new(plain_info());
    let vbo = ctx.new_vertex_buffer(1);
    let layout = build_single_buffer_layout(&[], &vbo);
    assert!(layout.is_empty());
}

#[test]
fn layout_builder_scalar_size_table() {
    let mut ctx = Context::new(plain_info());
    let vbo = ctx.new_vertex_buffer(1);
    let fields = [
        (1, VertexAttributeType::Byte, false),
        (1, VertexAttributeType::UnsignedShort, false),
        (1, VertexAttributeType::HalfFloat, false),
        (1, VertexAttributeType::Int, false),
        (1, VertexAttributeType::UnsignedInt, false),
        (1, VertexAttributeType::Double, false),
        (1, VertexAttributeType::Int2101010Rev, false),
        (1, VertexAttributeType::UnsignedInt2101010Rev, false),
    ];
    let layout = build_single_buffer_layout(&fields, &vbo);
    let offsets: Vec<u32> = layout.iter().map(|a| a.offset).collect();
    // byte=1, short/half-float=2, int/unsigned-int=4, double=8, packed=4.
    assert_eq!(offsets, vec![0, 1, 3, 5, 9, 13, 21, 25]);
    assert!(layout.iter().all(|a| a.stride == 29));
}

#[test]
fn vertex_array_setup_records_layout_and_index_binding() {
    let mut ctx = Context::new(plain_info());
    let vbo = ctx.new_vertex_buffer(5);
    let ibo = ctx.new_index_buffer(6);
    let _ = ctx.take_calls();
    let _vao = ctx.new_vertex_array_simple(
        &[(3, VertexAttributeType::Float, false), (4, VertexAttributeType::UnsignedByte, true)],
        vbo,
        Some(ibo),
        9,
    );
    let calls = ctx.take_calls();
    assert_eq!(
        calls,
        vec![
            DriverCall::BindVertexArray { name: 9 },
            DriverCall::BindBuffer { target: BufferType::VertexBuffer, name: 5 },
            DriverCall::EnableVertexAttribute { index: 0 },
            DriverCall::DescribeVertexAttribute {
                index: 0,
                size: 3,
                attribute_type: VertexAttributeType::Float,
                normalized: false,
                stride: 16,
                offset: 0,
            },
            // The second attribute reads from the same buffer, so no
            // second bind is recorded.
            DriverCall::EnableVertexAttribute { index: 1 },
            DriverCall::DescribeVertexAttribute {
                index: 1,
                size: 4,
                attribute_type: VertexAttributeType::UnsignedByte,
                normalized: true,
                stride: 16,
                offset: 12,
            },
            DriverCall::BindBuffer { target: BufferType::IndexBuffer, name: 6 },
        ]
    );
}
