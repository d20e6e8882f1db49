use htgl::driver::DriverCall;
use htgl::info::build_info;
use htgl::program::uniform::uniform_f32;
use htgl::program::uniform::uniform_i32;
use htgl::program::uniform::uniform_matrix;
use htgl::program::uniform::uniform_u32;
use htgl::program::uniform::validate_uniform;
use htgl::program::uniform::validate_uniform_i32;
use htgl::program::uniform::validate_uniform_u32;
use htgl::program::uniform::UniformValueError;
use htgl::Context;
use htgl::ShaderType;
use htgl::SimpleUniformTypeFloat;
use htgl::SimpleUniformTypeI32;
use htgl::SimpleUniformTypeMatrix;
use htgl::SimpleUniformTypeU32;

fn plain_info() -> htgl::info::ContextInfo {
    build_info(84, 14, 14, 14, 65536, 256)
}

#[test]
fn uniform_length_validation_fails_fast() {
    // Two three-component uniforms need six values; four are supplied.
    let mut log: Vec<DriverCall> = Vec::new();
    let bits: Vec<u32> = [1.0f32, 2.0, 3.0, 4.0].iter().map(|v| v.to_bits()).collect();
    let result = uniform_f32(0, 2, SimpleUniformTypeFloat::Uniform3f, &bits, &mut log);
    assert_eq!(
        result,
        Err(UniformValueError { count: 2, element_count: 3, provided_len: 4 })
    );
    // The underlying driver call was never attempted.
    assert!(log.is_empty());
}

#[test]
fn uniform_f32_records_when_lengths_fit() {
    let mut log: Vec<DriverCall> = Vec::new();
    let bits: Vec<u32> = [1.5f32, 2.5, 3.5].iter().map(|v| v.to_bits()).collect();
    let result = uniform_f32(7, 1, SimpleUniformTypeFloat::Uniform3f, &bits, &mut log);
    assert_eq!(result, Ok(()));
    assert_eq!(
        log,
        vec![DriverCall::UniformF32 {
            location: 7,
            count: 1,
            shape: SimpleUniformTypeFloat::Uniform3f,
            value_bits: bits,
        }]
    );
}

#[test]
fn uniform_matrix_validates_dimensions() {
    let mut log: Vec<DriverCall> = Vec::new();
    let bits: Vec<u32> = vec![0; 8];
    // A 3x3 matrix takes nine values.
    let result = uniform_matrix(1, 1, SimpleUniformTypeMatrix::Matrix3f, false, &bits, &mut log);
    assert_eq!(
        result,
        Err(UniformValueError { count: 1, element_count: 9, provided_len: 8 })
    );
    assert!(log.is_empty());

    let result = uniform_matrix(1, 1, SimpleUniformTypeMatrix::Matrix2x4f, true, &bits, &mut log);
    assert_eq!(result, Ok(()));
    assert_eq!(log.len(), 1);
    assert!(matches!(
        &log[0],
        DriverCall::UniformMatrix { location: 1, count: 1, transpose: true, .. }
    ));
}

#[test]
fn uniform_u32_and_i32_record_exact_calls() {
    let mut log: Vec<DriverCall> = Vec::new();
    assert_eq!(
        uniform_u32(2, 2, SimpleUniformTypeU32::Uniform2u, &[9, 8, 7, 6], &mut log),
        Ok(())
    );
    assert_eq!(
        uniform_i32(3, 1, SimpleUniformTypeI32::Uniform4i, &[-1, -2, -3, -4], &mut log),
        Ok(())
    );
    assert_eq!(
        log,
        vec![
            DriverCall::UniformU32 {
                location: 2,
                count: 2,
                shape: SimpleUniformTypeU32::Uniform2u,
                values: vec![9, 8, 7, 6],
            },
            DriverCall::UniformI32 {
                location: 3,
                count: 1,
                shape: SimpleUniformTypeI32::Uniform4i,
                values: vec![-1, -2, -3, -4],
            },
        ]
    );
}

#[test]
fn uniform_extra_values_are_accepted() {
    // If the slice is longer than needed, the extra values are ignored.
    let mut log: Vec<DriverCall> = Vec::new();
    assert_eq!(
        uniform_u32(0, 1, SimpleUniformTypeU32::Uniform1u, &[5, 6, 7], &mut log),
        Ok(())
    );
    assert_eq!(log.len(), 1);
}

#[test]
fn validation_boundary_is_exact() {
    assert_eq!(validate_uniform(2, 3, 6), Ok(()));
    assert_eq!(
        validate_uniform(2, 3, 5),
        Err(UniformValueError { count: 2, element_count: 3, provided_len: 5 })
    );
    assert_eq!(validate_uniform(0, 4, 0), Ok(()));
    assert_eq!(
        validate_uniform_u32(3, SimpleUniformTypeU32::Uniform2u, &[1, 2, 3, 4, 5]),
        Err(UniformValueError { count: 3, element_count: 2, provided_len: 5 })
    );
    assert_eq!(validate_uniform_i32(1, SimpleUniformTypeI32::Uniform1i, &[1]), Ok(()));
}

#[test]
fn validation_survives_huge_counts() {
    // count * element_count overflows a machine word; the call must
    // still fail cleanly rather than wrap around.
    assert!(validate_uniform(usize::MAX, 4, 16).is_err());
}

#[test]
fn program_editor_validates_before_recording() {
    let mut ctx = Context::new(plain_info());
    let vs = ctx.new_shader(ShaderType::VertexShader, String::from("void main() {}"), 1);
    let program = ctx.new_program(&[vs], 2);
    let editor = ctx.edit_program(&program);
    let before = ctx.calls().len();

    let bits: Vec<u32> = [1.5f32].iter().map(|v| v.to_bits()).collect();
    let result = editor.uniform_f32(&mut ctx, 0, 1, SimpleUniformTypeFloat::Uniform3f, &bits);
    assert_eq!(
        result,
        Err(UniformValueError { count: 1, element_count: 3, provided_len: 1 })
    );
    assert_eq!(ctx.calls().len(), before);

    let bits: Vec<u32> = [1.5f32, 0.5, 0.25].iter().map(|v| v.to_bits()).collect();
    assert_eq!(
        editor.uniform_f32(&mut ctx, 0, 1, SimpleUniformTypeFloat::Uniform3f, &bits),
        Ok(())
    );
    assert_eq!(ctx.calls().len(), before + 1);
    assert!(matches!(
        ctx.calls().last().unwrap(),
        DriverCall::UniformF32 { location: 0, count: 1, .. }
    ));
}

#[test]
fn program_editor_sets_integer_uniforms() {
    let mut ctx = Context::new(plain_info());
    let vs = ctx.new_shader(ShaderType::VertexShader, String::from("void main() {}"), 1);
    let program = ctx.new_program(&[vs], 2);
    let editor = ctx.edit_program(&program);
    let before = ctx.calls().len();
    assert_eq!(
        editor.uniform_u32(&mut ctx, 4, 1, SimpleUniformTypeU32::Uniform2u, &[1, 2]),
        Ok(())
    );
    assert_eq!(
        editor.uniform_i32(&mut ctx, 5, 1, SimpleUniformTypeI32::Uniform2i, &[3, 4]),
        Ok(())
    );
    assert_eq!(
        editor.uniform_matrix(
            &mut ctx,
            6,
            1,
            SimpleUniformTypeMatrix::Matrix2f,
            false,
            &[0, 0, 0, 0],
        ),
        Ok(())
    );
    assert_eq!(ctx.calls().len(), before + 3);
}
