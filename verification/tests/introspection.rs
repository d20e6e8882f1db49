use htgl::program::attribute::attribute_type_from_u32;
use htgl::program::attribute::make_attribute_info_vec;
use htgl::program::attribute::GlAttribute;
use htgl::program::attribute::ShaderAttributeType;
use htgl::program::new_program_info_accessor;
use htgl::program::uniform::make_gl_uniform_info_vec;
use htgl::program::uniform::make_uniform_block_info_vec;
use htgl::program::uniform::make_uniform_info;
use htgl::program::uniform::uniform_type_from_u32;
use htgl::program::uniform::GlUniform;
use htgl::program::uniform::UniformType;
use htgl::program::FragDataEntry;
use htgl::util::slice_to_string;
use htgl::util::vec_to_string;

fn raw_uniform(name: &str, block_index: i32, location: i32) -> GlUniform {
    let mut uniform = GlUniform::new(name.to_string());
    uniform.uniform_type = 0x1406;
    uniform.size = 1;
    uniform.block_index = block_index;
    uniform.location = location;
    uniform
}

#[test]
fn uniform_partition_into_globals_and_blocks() {
    // Five active uniforms; two report block 0, three report no block.
    let uniforms = vec![
        raw_uniform("alpha", -1, 10),
        raw_uniform("in_block_one", 0, -1),
        raw_uniform("beta", -1, 11),
        raw_uniform("in_block_two", 0, -1),
        raw_uniform("gamma", -1, 12),
    ];
    let blocks = make_uniform_block_info_vec(vec![String::from("Lighting")], &[128], &[0]);
    let info = make_uniform_info(uniforms, blocks);

    assert_eq!(info.globals.len(), 3);
    assert_eq!(info.blocks.len(), 1);
    assert_eq!(info.blocks[0].uniforms.len(), 2);

    // No overlap: the block members and the globals are disjoint.
    let global_names: Vec<&str> = info.globals.iter().map(|u| u.name.as_str()).collect();
    assert_eq!(global_names, vec!["alpha", "beta", "gamma"]);
    let member_names: Vec<&str> =
        info.blocks[0].uniforms.iter().map(|u| u.name.as_str()).collect();
    assert_eq!(member_names, vec!["in_block_one", "in_block_two"]);
    for name in &member_names {
        assert!(!global_names.contains(name));
    }

    // Globals keep the locations their records reported.
    assert_eq!(info.globals[0].location, 10);
    assert_eq!(info.globals[1].location, 11);
    assert_eq!(info.globals[2].location, 12);
}

#[test]
fn zero_uniforms_and_blocks_yield_empty_report() {
    let info = make_uniform_info(Vec::new(), Vec::new());
    assert!(info.globals.is_empty());
    assert!(info.blocks.is_empty());
}

#[test]
fn uniform_lookup_by_name() {
    let uniforms = vec![raw_uniform("scale", -1, 3), raw_uniform("tint", -1, 4)];
    let blocks = make_uniform_block_info_vec(vec![String::from("Globals")], &[64], &[5]);
    let mut member = raw_uniform("inner", 0, -1);
    member.offset = 16;
    let mut all = uniforms;
    all.push(member);
    let info = make_uniform_info(all, blocks);

    assert_eq!(info.get_global_uniform("scale").unwrap().location, 3);
    assert_eq!(info.get_global_uniform("tint").unwrap().location, 4);
    assert!(info.get_global_uniform("absent").is_none());
    assert!(info.get_global_uniform("inner").is_none());

    let block = info.get_block("Globals").unwrap();
    assert_eq!(block.index, 5);
    assert_eq!(block.data_size, 64);
    assert_eq!(block.get_uniform("inner").unwrap().offset, 16);
    assert!(block.get_uniform("scale").is_none());
    assert_eq!(info.get_block_uniform("Globals", "inner").unwrap().offset, 16);
    assert!(info.get_block_uniform("Globals", "missing").is_none());
    assert!(info.get_block_uniform("NoSuchBlock", "inner").is_none());
}

#[test]
fn uniform_type_tags_decode() {
    assert_eq!(uniform_type_from_u32(0x1406), UniformType::Float);
    assert_eq!(uniform_type_from_u32(0x8B52), UniformType::FloatVec4);
    assert_eq!(uniform_type_from_u32(0x8B5C), UniformType::FloatMat4);
    assert_eq!(uniform_type_from_u32(0x8B66), UniformType::FloatMat2x4);
    assert_eq!(uniform_type_from_u32(0x8B5E), UniformType::Sampler2d);
    assert_eq!(uniform_type_from_u32(0x910D), UniformType::UnsignedIntSampler2dMultisampleArray);
    // An unknown tag degrades gracefully, carrying the raw value.
    assert_eq!(uniform_type_from_u32(0xBEEF), UniformType::UnrecognizedType(0xBEEF));
}

#[test]
fn attribute_type_tags_decode() {
    assert_eq!(attribute_type_from_u32(0x1406), ShaderAttributeType::Float);
    assert_eq!(attribute_type_from_u32(0x8B51), ShaderAttributeType::FloatVec3);
    assert_eq!(attribute_type_from_u32(0x8DC8), ShaderAttributeType::UnsignedIntVec4);
    assert_eq!(attribute_type_from_u32(0x2222), ShaderAttributeType::UnrecognizedType(0x2222));
}

#[test]
fn attribute_report_is_assembled_in_order() {
    let raw = vec![
        GlAttribute { name: String::from("position"), size: 1, attribute_type: 0x8B51, location: 0 },
        GlAttribute { name: String::from("color"), size: 1, attribute_type: 0x8B52, location: 1 },
    ];
    let report = make_attribute_info_vec(raw);
    assert_eq!(report.attributes.len(), 2);
    assert_eq!(report.attributes[0].name, "position");
    assert_eq!(report.attributes[0].attribute_type, ShaderAttributeType::FloatVec3);
    assert_eq!(report.get_attribute("color").unwrap().location, 1);
    assert!(report.get_attribute("normal").is_none());
}

#[test]
fn empty_attribute_report() {
    let report = make_attribute_info_vec(Vec::new());
    assert!(report.attributes.is_empty());
    assert!(report.get_attribute("anything").is_none());
}

#[test]
fn raw_uniform_records_zip_from_batched_queries() {
    let records = make_gl_uniform_info_vec(
        vec![String::from("a"), String::from("b")],
        &[0x1406, 0x8B52],
        &[1, 2],
        &[-1, 0],
        &[0, 16],
        &[0, 4],
        &[0, 8],
        &[7, -1],
    );
    assert_eq!(records.len(), 2);
    assert_eq!(records[0].name, "a");
    assert_eq!(records[0].uniform_type, 0x1406);
    assert_eq!(records[0].block_index, -1);
    assert_eq!(records[0].location, 7);
    assert_eq!(records[1].size, 2);
    assert_eq!(records[1].offset, 16);
    assert_eq!(records[1].array_stride, 4);
    assert_eq!(records[1].matrix_stride, 8);
}

#[test]
fn program_accessor_answers_queries_from_its_snapshot() {
    let accessor = new_program_info_accessor(
        true,
        String::from("fine"),
        vec![raw_uniform("scale", -1, 9)],
        Vec::new(),
        vec![GlAttribute {
            name: String::from("position"),
            size: 1,
            attribute_type: 0x8B51,
            location: 2,
        }],
        vec![FragDataEntry { name: String::from("color_out"), location: 0, index: 1 }],
    );
    assert!(accessor.get_link_status());
    assert_eq!(accessor.get_info_log(), "fine");
    assert_eq!(accessor.get_uniform_location("scale"), 9);
    assert_eq!(accessor.get_uniform_location("missing"), -1);
    assert_eq!(accessor.get_attribute_location("position"), 2);
    assert_eq!(accessor.get_attribute_location("missing"), -1);
    assert_eq!(accessor.get_frag_data_location("color_out"), 0);
    assert_eq!(accessor.get_frag_data_index("color_out"), 1);
    assert_eq!(accessor.get_frag_data_location("missing"), -1);
    assert_eq!(accessor.get_frag_data_index("missing"), -1);

    let info = accessor.get_uniform_info();
    assert_eq!(info.globals.len(), 1);
    assert!(info.blocks.is_empty());
    let attributes = accessor.get_attribute_info();
    assert_eq!(attributes.attributes.len(), 1);
    assert_eq!(attributes.attributes[0].attribute_type, ShaderAttributeType::FloatVec3);
}

#[test]
fn log_text_conversion_is_lossy_but_total() {
    assert_eq!(vec_to_string(vec![104, 105]), "hi");
    assert_eq!(slice_to_string(b"driver said no"), "driver said no");
    assert_eq!(slice_to_string(&[]), "");
    // Invalid UTF-8 is replaced, not rejected.
    let text = slice_to_string(&[0xFF, 0x68]);
    assert_eq!(text.chars().count(), 2);
    assert!(text.ends_with('h'));
}
