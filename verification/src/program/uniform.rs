//! Uniform variables: direct value setting with defensive validation,
//! and the introspection report of a program's active uniforms and
//! uniform blocks.
//!
//! Value setting validates before dispatch: the number of scalar values a
//! call needs is computed from its count and shape, and when the supplied
//! buffer is too short the call fails fast, as data, without recording
//! any driver call.  Introspection assembles the driver's raw per-uniform
//! records into a structured report, partitioning uniforms between the
//! top-level globals and the uniform blocks by their reported block
//! index.
//!
//! Because this library keeps to integer data, 32-bit float uniform
//! values travel as IEEE 754 bit patterns (`u32`), converted at the
//! boundary by the embedding program; lengths and shapes are unaffected.

use vstd::prelude::*;

use crate::driver::DriverCall;

verus! {

/// Shape selector when setting scalar or vector uniforms of 32-bit
/// floats.
#[derive(Debug, Clone, Copy, PartialEq, Eq, Structural)]
pub enum SimpleUniformTypeFloat {
    Uniform1f,
    Uniform2f,
    Uniform3f,
    Uniform4f,
}

impl SimpleUniformTypeFloat {
    /// How many scalar values one uniform of this shape takes.
    pub open spec fn spec_element_count(&self) -> usize {
        match self {
            SimpleUniformTypeFloat::Uniform1f => 1,
            SimpleUniformTypeFloat::Uniform2f => 2,
            SimpleUniformTypeFloat::Uniform3f => 3,
            SimpleUniformTypeFloat::Uniform4f => 4,
        }
    }

    /// Return how many scalar values one uniform of this shape takes.
    pub fn element_count(&self) -> (r: usize)
        ensures
            r == self.spec_element_count(),
    {
        match self {
            SimpleUniformTypeFloat::Uniform1f => 1,
            SimpleUniformTypeFloat::Uniform2f => 2,
            SimpleUniformTypeFloat::Uniform3f => 3,
            SimpleUniformTypeFloat::Uniform4f => 4,
        }
    }
}

/// Shape selector when setting matrix uniforms of 32-bit floats.
#[derive(Debug, Clone, Copy, PartialEq, Eq, Structural)]
pub enum SimpleUniformTypeMatrix {
    Matrix2f,
    Matrix3f,
    Matrix4f,
    Matrix2x3f,
    Matrix3x2f,
    Matrix2x4f,
    Matrix4x2f,
    Matrix3x4f,
    Matrix4x3f,
}

impl SimpleUniformTypeMatrix {
    /// How many scalar values one matrix of this shape takes.
    pub open spec fn spec_element_count(&self) -> usize {
        match self {
            SimpleUniformTypeMatrix::Matrix2f => 4,
            SimpleUniformTypeMatrix::Matrix3f => 9,
            SimpleUniformTypeMatrix::Matrix4f => 16,
            SimpleUniformTypeMatrix::Matrix2x3f => 6,
            SimpleUniformTypeMatrix::Matrix3x2f => 6,
            SimpleUniformTypeMatrix::Matrix2x4f => 8,
            SimpleUniformTypeMatrix::Matrix4x2f => 8,
            SimpleUniformTypeMatrix::Matrix3x4f => 12,
            SimpleUniformTypeMatrix::Matrix4x3f => 12,
        }
    }

    /// Return how many scalar values one matrix of this shape takes.
    pub fn element_count(&self) -> (r: usize)
        ensures
            r == self.spec_element_count(),
    {
        match self {
            SimpleUniformTypeMatrix::Matrix2f => 4,
            SimpleUniformTypeMatrix::Matrix3f => 9,
            SimpleUniformTypeMatrix::Matrix4f => 16,
            SimpleUniformTypeMatrix::Matrix2x3f => 6,
            SimpleUniformTypeMatrix::Matrix3x2f => 6,
            SimpleUniformTypeMatrix::Matrix2x4f => 8,
            SimpleUniformTypeMatrix::Matrix4x2f => 8,
            SimpleUniformTypeMatrix::Matrix3x4f => 12,
            SimpleUniformTypeMatrix::Matrix4x3f => 12,
        }
    }
}

/// Shape selector when setting scalar or vector uniforms of `i32`.
#[derive(Debug, Clone, Copy, PartialEq, Eq, Structural)]
pub enum SimpleUniformTypeI32 {
    Uniform1i,
    Uniform2i,
    Uniform3i,
    Uniform4i,
}

impl SimpleUniformTypeI32 {
    /// How many scalar values one uniform of this shape takes.
    pub open spec fn spec_element_count(&self) -> usize {
        match self {
            SimpleUniformTypeI32::Uniform1i => 1,
            SimpleUniformTypeI32::Uniform2i => 2,
            SimpleUniformTypeI32::Uniform3i => 3,
            SimpleUniformTypeI32::Uniform4i => 4,
        }
    }

    /// Return how many scalar values one uniform of this shape takes.
    pub fn element_count(&self) -> (r: usize)
        ensures
            r == self.spec_element_count(),
    {
        match self {
            SimpleUniformTypeI32::Uniform1i => 1,
            SimpleUniformTypeI32::Uniform2i => 2,
            SimpleUniformTypeI32::Uniform3i => 3,
            SimpleUniformTypeI32::Uniform4i => 4,
        }
    }
}

/// Shape selector when setting scalar or vector uniforms of `u32`.
#[derive(Debug, Clone, Copy, PartialEq, Eq, Structural)]
pub enum SimpleUniformTypeU32 {
    Uniform1u,
    Uniform2u,
    Uniform3u,
    Uniform4u,
}

impl SimpleUniformTypeU32 {
    /// How many scalar values one uniform of this shape takes.
    pub open spec fn spec_element_count(&self) -> usize {
        match self {
            SimpleUniformTypeU32::Uniform1u => 1,
            SimpleUniformTypeU32::Uniform2u => 2,
            SimpleUniformTypeU32::Uniform3u => 3,
            SimpleUniformTypeU32::Uniform4u => 4,
        }
    }

    /// Return how many scalar values one uniform of this shape takes.
    pub fn element_count(&self) -> (r: usize)
        ensures
            r == self.spec_element_count(),
    {
        match self {
            SimpleUniformTypeU32::Uniform1u => 1,
            SimpleUniformTypeU32::Uniform2u => 2,
            SimpleUniformTypeU32::Uniform3u => 3,
            SimpleUniformTypeU32::Uniform4u => 4,
        }
    }
}

/// Enum for the recognized uniform data types, as reported by the
/// driver's introspection queries.  A type tag this library does not
/// recognize is carried through as [`UniformType::UnrecognizedType`]
/// with the raw tag value, so introspection degrades gracefully rather
/// than failing on new types.
#[derive(Debug, Clone, Copy, PartialEq, Eq, Structural)]
pub enum UniformType {
    Float,
    FloatVec2,
    FloatVec3,
    FloatVec4,
    Int,
    IntVec2,
    IntVec3,
    IntVec4,
    UnsignedInt,
    UnsignedIntVec2,
    UnsignedIntVec3,
    UnsignedIntVec4,
    Bool,
    BoolVec2,
    BoolVec3,
    BoolVec4,
    FloatMat2,
    FloatMat3,
    FloatMat4,
    FloatMat2x3,
    FloatMat2x4,
    FloatMat3x2,
    FloatMat3x4,
    FloatMat4x2,
    FloatMat4x3,
    Sampler1d,
    Sampler2d,
    Sampler3d,
    SamplerCube,
    Sampler1dShadow,
    Sampler2dShadow,
    Sampler1dArray,
    Sampler2dArray,
    Sampler1dArrayShadow,
    Sampler2dArrayShadow,
    Sampler2dMultisample,
    Sampler2dMultisampleArray,
    SamplerCubeShadow,
    SamplerBuffer,
    Sampler2dRect,
    Sampler2dRectShadow,
    IntSampler1d,
    IntSampler2d,
    IntSampler3d,
    IntSamplerCube,
    IntSampler1dArray,
    IntSampler2dArray,
    IntSampler2dMultisample,
    IntSampler2dMultisampleArray,
    IntSamplerBuffer,
    IntSampler2dRect,
    UnsignedIntSampler1d,
    UnsignedIntSampler2d,
    UnsignedIntSampler3d,
    UnsignedIntSamplerCube,
    UnsignedIntSampler1dArray,
    UnsignedIntSampler2dArray,
    UnsignedIntSampler2dMultisample,
    UnsignedIntSampler2dMultisampleArray,
    UnsignedIntSamplerBuffer,
    UnsignedIntSampler2dRect,
    UnrecognizedType(u32),
}

/// The uniform data type denoted by a raw driver type tag.
pub open spec fn spec_uniform_type_from_tag(tag: u32) -> UniformType {
    match tag {
        0x1406u32 => UniformType::Float,
        0x8B50u32 => UniformType::FloatVec2,
        0x8B51u32 => UniformType::FloatVec3,
        0x8B52u32 => UniformType::FloatVec4,
        0x1404u32 => UniformType::Int,
        0x8B53u32 => UniformType::IntVec2,
        0x8B54u32 => UniformType::IntVec3,
        0x8B55u32 => UniformType::IntVec4,
        0x1405u32 => UniformType::UnsignedInt,
        0x8DC6u32 => UniformType::UnsignedIntVec2,
        0x8DC7u32 => UniformType::UnsignedIntVec3,
        0x8DC8u32 => UniformType::UnsignedIntVec4,
        0x8B56u32 => UniformType::Bool,
        0x8B57u32 => UniformType::BoolVec2,
        0x8B58u32 => UniformType::BoolVec3,
        0x8B59u32 => UniformType::BoolVec4,
        0x8B5Au32 => UniformType::FloatMat2,
        0x8B5Bu32 => UniformType::FloatMat3,
        0x8B5Cu32 => UniformType::FloatMat4,
        0x8B65u32 => UniformType::FloatMat2x3,
        0x8B66u32 => UniformType::FloatMat2x4,
        0x8B67u32 => UniformType::FloatMat3x2,
        0x8B68u32 => UniformType::FloatMat3x4,
        0x8B69u32 => UniformType::FloatMat4x2,
        0x8B6Au32 => UniformType::FloatMat4x3,
        0x8B5Du32 => UniformType::Sampler1d,
        0x8B5Eu32 => UniformType::Sampler2d,
        0x8B5Fu32 => UniformType::Sampler3d,
        0x8B60u32 => UniformType::SamplerCube,
        0x8B61u32 => UniformType::Sampler1dShadow,
        0x8B62u32 => UniformType::Sampler2dShadow,
        0x8DC0u32 => UniformType::Sampler1dArray,
        0x8DC1u32 => UniformType::Sampler2dArray,
        0x8DC3u32 => UniformType::Sampler1dArrayShadow,
        0x8DC4u32 => UniformType::Sampler2dArrayShadow,
        0x9108u32 => UniformType::Sampler2dMultisample,
        0x910Bu32 => UniformType::Sampler2dMultisampleArray,
        0x8DC5u32 => UniformType::SamplerCubeShadow,
        0x8DC2u32 => UniformType::SamplerBuffer,
        0x8B63u32 => UniformType::Sampler2dRect,
        0x8B64u32 => UniformType::Sampler2dRectShadow,
        0x8DC9u32 => UniformType::IntSampler1d,
        0x8DCAu32 => UniformType::IntSampler2d,
        0x8DCBu32 => UniformType::IntSampler3d,
        0x8DCCu32 => UniformType::IntSamplerCube,
        0x8DCEu32 => UniformType::IntSampler1dArray,
        0x8DCFu32 => UniformType::IntSampler2dArray,
        0x9109u32 => UniformType::IntSampler2dMultisample,
        0x910Cu32 => UniformType::IntSampler2dMultisampleArray,
        0x8DD0u32 => UniformType::IntSamplerBuffer,
        0x8DCDu32 => UniformType::IntSampler2dRect,
        0x8DD1u32 => UniformType::UnsignedIntSampler1d,
        0x8DD2u32 => UniformType::UnsignedIntSampler2d,
        0x8DD3u32 => UniformType::UnsignedIntSampler3d,
        0x8DD4u32 => UniformType::UnsignedIntSamplerCube,
        0x8DD6u32 => UniformType::UnsignedIntSampler1dArray,
        0x8DD7u32 => UniformType::UnsignedIntSampler2dArray,
        0x910Au32 => UniformType::UnsignedIntSampler2dMultisample,
        0x910Du32 => UniformType::UnsignedIntSampler2dMultisampleArray,
        0x8DD8u32 => UniformType::UnsignedIntSamplerBuffer,
        0x8DD5u32 => UniformType::UnsignedIntSampler2dRect,
        _ => UniformType::UnrecognizedType(tag),
    }
}

/// Decode a raw driver type tag into a [`UniformType`].
pub fn uniform_type_from_u32(tag: u32) -> (r: UniformType)
    ensures
        r == spec_uniform_type_from_tag(tag),
{
    match tag {
        0x1406u32 => UniformType::Float,
        0x8B50u32 => UniformType::FloatVec2,
        0x8B51u32 => UniformType::FloatVec3,
        0x8B52u32 => UniformType::FloatVec4,
        0x1404u32 => UniformType::Int,
        0x8B53u32 => UniformType::IntVec2,
        0x8B54u32 => UniformType::IntVec3,
        0x8B55u32 => UniformType::IntVec4,
        0x1405u32 => UniformType::UnsignedInt,
        0x8DC6u32 => UniformType::UnsignedIntVec2,
        0x8DC7u32 => UniformType::UnsignedIntVec3,
        0x8DC8u32 => UniformType::UnsignedIntVec4,
        0x8B56u32 => UniformType::Bool,
        0x8B57u32 => UniformType::BoolVec2,
        0x8B58u32 => UniformType::BoolVec3,
        0x8B59u32 => UniformType::BoolVec4,
        0x8B5Au32 => UniformType::FloatMat2,
        0x8B5Bu32 => UniformType::FloatMat3,
        0x8B5Cu32 => UniformType::FloatMat4,
        0x8B65u32 => UniformType::FloatMat2x3,
        0x8B66u32 => UniformType::FloatMat2x4,
        0x8B67u32 => UniformType::FloatMat3x2,
        0x8B68u32 => UniformType::FloatMat3x4,
        0x8B69u32 => UniformType::FloatMat4x2,
        0x8B6Au32 => UniformType::FloatMat4x3,
        0x8B5Du32 => UniformType::Sampler1d,
        0x8B5Eu32 => UniformType::Sampler2d,
        0x8B5Fu32 => UniformType::Sampler3d,
        0x8B60u32 => UniformType::SamplerCube,
        0x8B61u32 => UniformType::Sampler1dShadow,
        0x8B62u32 => UniformType::Sampler2dShadow,
        0x8DC0u32 => UniformType::Sampler1dArray,
        0x8DC1u32 => UniformType::Sampler2dArray,
        0x8DC3u32 => UniformType::Sampler1dArrayShadow,
        0x8DC4u32 => UniformType::Sampler2dArrayShadow,
        0x9108u32 => UniformType::Sampler2dMultisample,
        0x910Bu32 => UniformType::Sampler2dMultisampleArray,
        0x8DC5u32 => UniformType::SamplerCubeShadow,
        0x8DC2u32 => UniformType::SamplerBuffer,
        0x8B63u32 => UniformType::Sampler2dRect,
        0x8B64u32 => UniformType::Sampler2dRectShadow,
        0x8DC9u32 => UniformType::IntSampler1d,
        0x8DCAu32 => UniformType::IntSampler2d,
        0x8DCBu32 => UniformType::IntSampler3d,
        0x8DCCu32 => UniformType::IntSamplerCube,
        0x8DCEu32 => UniformType::IntSampler1dArray,
        0x8DCFu32 => UniformType::IntSampler2dArray,
        0x9109u32 => UniformType::IntSampler2dMultisample,
        0x910Cu32 => UniformType::IntSampler2dMultisampleArray,
        0x8DD0u32 => UniformType::IntSamplerBuffer,
        0x8DCDu32 => UniformType::IntSampler2dRect,
        0x8DD1u32 => UniformType::UnsignedIntSampler1d,
        0x8DD2u32 => UniformType::UnsignedIntSampler2d,
        0x8DD3u32 => UniformType::UnsignedIntSampler3d,
        0x8DD4u32 => UniformType::UnsignedIntSamplerCube,
        0x8DD6u32 => UniformType::UnsignedIntSampler1dArray,
        0x8DD7u32 => UniformType::UnsignedIntSampler2dArray,
        0x910Au32 => UniformType::UnsignedIntSampler2dMultisample,
        0x910Du32 => UniformType::UnsignedIntSampler2dMultisampleArray,
        0x8DD8u32 => UniformType::UnsignedIntSamplerBuffer,
        0x8DD5u32 => UniformType::UnsignedIntSampler2dRect,
        _ => UniformType::UnrecognizedType(tag),
    }
}

/// A uniform-value call supplied fewer scalar values than its count and
/// shape demand.  This reports a contract violation by the caller; it
/// is not meant to be retried, and the embedding program will usually
/// treat it as fatal.
#[derive(Debug, Clone, Copy, PartialEq, Eq, Structural)]
pub struct UniformValueError {
    /// How many uniforms the call asked to set.
    pub count: usize,
    /// How many scalar values one uniform of the requested shape takes.
    pub element_count: usize,
    /// How many scalar values were actually supplied.
    pub provided_len: usize,
}

impl UniformValueError {
    /// How many scalar values the call would have needed.
    pub open spec fn spec_expected_len(&self) -> int {
        self.count * self.element_count
    }
}

/// Check that `values_len` scalar values are enough to set `count`
/// uniforms of a shape taking `element_count` scalars each.  Common part
/// of the per-type validation routines.
pub fn validate_uniform(count: usize, element_count: usize, values_len: usize) -> (r: Result<
    (),
    UniformValueError,
>)
    ensures
        r is Ok <==> count * element_count <= values_len,
        r matches Err(e) ==> e == (UniformValueError {
            count,
            element_count,
            provided_len: values_len,
        }),
{
    match count.checked_mul(element_count) {
        Some(expected_len) => {
            if expected_len > values_len {
                Err(UniformValueError { count, element_count, provided_len: values_len })
            } else {
                Ok(())
            }
        },
        None => Err(UniformValueError { count, element_count, provided_len: values_len }),
    }
}

/// Check that a buffer of `values_len` float bit patterns suffices to
/// set `count` uniforms of the given float shape.
pub fn validate_uniform_f32(count: usize, uniform_type: SimpleUniformTypeFloat, values_len: usize)
    -> (r: Result<(), UniformValueError>)
    ensures
        r is Ok <==> count * uniform_type.spec_element_count() <= values_len,
        r matches Err(e) ==> e == (UniformValueError {
            count,
            element_count: uniform_type.spec_element_count(),
            provided_len: values_len,
        }),
{
    validate_uniform(count, uniform_type.element_count(), values_len)
}

/// Check that a buffer of `values_len` float bit patterns suffices to
/// set `count` matrices of the given shape.
pub fn validate_uniform_matrix(
    count: usize,
    uniform_type: SimpleUniformTypeMatrix,
    values_len: usize,
) -> (r: Result<(), UniformValueError>)
    ensures
        r is Ok <==> count * uniform_type.spec_element_count() <= values_len,
        r matches Err(e) ==> e == (UniformValueError {
            count,
            element_count: uniform_type.spec_element_count(),
            provided_len: values_len,
        }),
{
    validate_uniform(count, uniform_type.element_count(), values_len)
}

/// Check that there are enough values in the slice to set `count`
/// uniforms of the given `u32` shape.
pub fn validate_uniform_u32(count: usize, uniform_type: SimpleUniformTypeU32, values: &[u32]) -> (r:
    Result<(), UniformValueError>)
    ensures
        r is Ok <==> count * uniform_type.spec_element_count() <= values@.len(),
        r matches Err(e) ==> e == (UniformValueError {
            count,
            element_count: uniform_type.spec_element_count(),
            provided_len: values@.len() as usize,
        }),
{
    validate_uniform(count, uniform_type.element_count(), values.len())
}

/// Check that there are enough values in the slice to set `count`
/// uniforms of the given `i32` shape.
pub fn validate_uniform_i32(count: usize, uniform_type: SimpleUniformTypeI32, values: &[i32]) -> (r:
    Result<(), UniformValueError>)
    ensures
        r is Ok <==> count * uniform_type.spec_element_count() <= values@.len(),
        r matches Err(e) ==> e == (UniformValueError {
            count,
            element_count: uniform_type.spec_element_count(),
            provided_len: values@.len() as usize,
        }),
{
    validate_uniform(count, uniform_type.element_count(), values.len())
}

/// `c` is a float uniform-value call with exactly these arguments.
pub open spec fn spec_is_uniform_f32(
    c: DriverCall,
    location: i32,
    count: usize,
    shape: SimpleUniformTypeFloat,
    bits: Seq<u32>,
) -> bool {
    c matches DriverCall::UniformF32 { location: l, count: n, shape: s, value_bits: v } && l
        == location && n == count && s == shape && v@ == bits
}

/// `c` is a matrix uniform-value call with exactly these arguments.
pub open spec fn spec_is_uniform_matrix(
    c: DriverCall,
    location: i32,
    count: usize,
    shape: SimpleUniformTypeMatrix,
    transpose: bool,
    bits: Seq<u32>,
) -> bool {
    c matches DriverCall::UniformMatrix { location: l, count: n, shape: s, transpose: t, value_bits: v }
        && l == location && n == count && s == shape && t == transpose && v@ == bits
}

/// `c` is a `u32` uniform-value call with exactly these arguments.
pub open spec fn spec_is_uniform_u32(
    c: DriverCall,
    location: i32,
    count: usize,
    shape: SimpleUniformTypeU32,
    values: Seq<u32>,
) -> bool {
    c matches DriverCall::UniformU32 { location: l, count: n, shape: s, values: v } && l == location
        && n == count && s == shape && v@ == values
}

/// `c` is an `i32` uniform-value call with exactly these arguments.
pub open spec fn spec_is_uniform_i32(
    c: DriverCall,
    location: i32,
    count: usize,
    shape: SimpleUniformTypeI32,
    values: Seq<i32>,
) -> bool {
    c matches DriverCall::UniformI32 { location: l, count: n, shape: s, values: v } && l == location
        && n == count && s == shape && v@ == values
}

/// Record a call setting `count` float uniform values (single values or
/// vectors, or arrays of them), given as IEEE 754 bit patterns.
///
/// Validation runs before dispatch: when too few values are supplied the
/// error is returned and nothing is recorded.  Extra values beyond the
/// needed length are ignored by the driver.
pub fn uniform_f32(
    location: i32,
    count: usize,
    uniform_type: SimpleUniformTypeFloat,
    value_bits: &[u32],
    log: &mut Vec<DriverCall>,
) -> (r: Result<(), UniformValueError>)
    ensures
        r is Ok <==> count * uniform_type.spec_element_count() <= value_bits@.len(),
        r is Ok ==> final(log)@.len() == old(log)@.len() + 1 && final(log)@.drop_last() == old(
            log,
        )@ && spec_is_uniform_f32(
            final(log)@.last(),
            location,
            count,
            uniform_type,
            value_bits@,
        ),
        r matches Err(e) ==> final(log)@ == old(log)@ && e == (UniformValueError {
            count,
            element_count: uniform_type.spec_element_count(),
            provided_len: value_bits@.len() as usize,
        }),
{
    match validate_uniform_f32(count, uniform_type, value_bits.len()) {
        Ok(()) => {
            log.push(
                DriverCall::UniformF32 {
                    location,
                    count,
                    shape: uniform_type,
                    value_bits: vstd::slice::slice_to_vec(value_bits),
                },
            );
            proof {
                assert(log@.drop_last() =~= old(log)@);
            }
            Ok(())
        },
        Err(error) => Err(error),
    }
}

/// Record a call setting `count` matrix uniform values, given as IEEE
/// 754 bit patterns, with the driver-side transpose flag.
///
/// Validation runs before dispatch, as in [`uniform_f32`].
pub fn uniform_matrix(
    location: i32,
    count: usize,
    uniform_type: SimpleUniformTypeMatrix,
    transpose: bool,
    value_bits: &[u32],
    log: &mut Vec<DriverCall>,
) -> (r: Result<(), UniformValueError>)
    ensures
        r is Ok <==> count * uniform_type.spec_element_count() <= value_bits@.len(),
        r is Ok ==> final(log)@.len() == old(log)@.len() + 1 && final(log)@.drop_last() == old(
            log,
        )@ && spec_is_uniform_matrix(
            final(log)@.last(),
            location,
            count,
            uniform_type,
            transpose,
            value_bits@,
        ),
        r matches Err(e) ==> final(log)@ == old(log)@ && e == (UniformValueError {
            count,
            element_count: uniform_type.spec_element_count(),
            provided_len: value_bits@.len() as usize,
        }),
{
    match validate_uniform_matrix(count, uniform_type, value_bits.len()) {
        Ok(()) => {
            log.push(
                DriverCall::UniformMatrix {
                    location,
                    count,
                    shape: uniform_type,
                    transpose,
                    value_bits: vstd::slice::slice_to_vec(value_bits),
                },
            );
            proof {
                assert(log@.drop_last() =~= old(log)@);
            }
            Ok(())
        },
        Err(error) => Err(error),
    }
}

/// Record a call setting `count` `u32` uniform values (single values or
/// vectors, or arrays of them).
///
/// Validation runs before dispatch, as in [`uniform_f32`].
pub fn uniform_u32(
    location: i32,
    count: usize,
    uniform_type: SimpleUniformTypeU32,
    values: &[u32],
    log: &mut Vec<DriverCall>,
) -> (r: Result<(), UniformValueError>)
    ensures
        r is Ok <==> count * uniform_type.spec_element_count() <= values@.len(),
        r is Ok ==> final(log)@.len() == old(log)@.len() + 1 && final(log)@.drop_last() == old(
            log,
        )@ && spec_is_uniform_u32(final(log)@.last(), location, count, uniform_type, values@),
        r matches Err(e) ==> final(log)@ == old(log)@ && e == (UniformValueError {
            count,
            element_count: uniform_type.spec_element_count(),
            provided_len: values@.len() as usize,
        }),
{
    match validate_uniform_u32(count, uniform_type, values) {
        Ok(()) => {
            log.push(
                DriverCall::UniformU32 {
                    location,
                    count,
                    shape: uniform_type,
                    values: vstd::slice::slice_to_vec(values),
                },
            );
            proof {
                assert(log@.drop_last() =~= old(log)@);
            }
            Ok(())
        },
        Err(error) => Err(error),
    }
}

/// Record a call setting `count` `i32` uniform values (single values or
/// vectors, or arrays of them).
///
/// Validation runs before dispatch, as in [`uniform_f32`].
pub fn uniform_i32(
    location: i32,
    count: usize,
    uniform_type: SimpleUniformTypeI32,
    values: &[i32],
    log: &mut Vec<DriverCall>,
) -> (r: Result<(), UniformValueError>)
    ensures
        r is Ok <==> count * uniform_type.spec_element_count() <= values@.len(),
        r is Ok ==> final(log)@.len() == old(log)@.len() + 1 && final(log)@.drop_last() == old(
            log,
        )@ && spec_is_uniform_i32(final(log)@.last(), location, count, uniform_type, values@),
        r matches Err(e) ==> final(log)@ == old(log)@ && e == (UniformValueError {
            count,
            element_count: uniform_type.spec_element_count(),
            provided_len: values@.len() as usize,
        }),
{
    match validate_uniform_i32(count, uniform_type, values) {
        Ok(()) => {
            log.push(
                DriverCall::UniformI32 {
                    location,
                    count,
                    shape: uniform_type,
                    values: vstd::slice::slice_to_vec(values),
                },
            );
            proof {
                assert(log@.drop_last() =~= old(log)@);
            }
            Ok(())
        },
        Err(error) => Err(error),
    }
}

/// One raw record of the driver's per-uniform introspection queries: the
/// batched properties of one active uniform, plus its name.  These
/// records are the input to [`make_uniform_info`].
pub struct GlUniform {
    /// The uniform's name.
    pub name: String,
    /// The raw driver type tag.
    pub uniform_type: i32,
    /// The array size: how many instances of the type the uniform holds.
    pub size: i32,
    /// The index of the containing uniform block, negative for none.
    pub block_index: i32,
    /// Byte offset inside the containing block.
    pub offset: i32,
    /// Distance in bytes between array elements inside a block.
    pub array_stride: i32,
    /// Distance in bytes between matrix rows or columns inside a block.
    pub matrix_stride: i32,
    /// The uniform's location, meaningful for uniforms outside blocks.
    pub location: i32,
}

impl GlUniform {
    /// A record with the given name and every numeric property zeroed,
    /// ready to be filled from the driver's batched property queries.
    pub fn new(name: String) -> (r: GlUniform)
        ensures
            r == (GlUniform {
                name: name,
                uniform_type: 0,
                size: 0,
                block_index: 0,
                offset: 0,
                array_stride: 0,
                matrix_stride: 0,
                location: 0,
            }),
    {
        GlUniform {
            name,
            uniform_type: 0,
            size: 0,
            block_index: 0,
            offset: 0,
            array_stride: 0,
            matrix_stride: 0,
            location: 0,
        }
    }
}

impl Clone for GlUniform {
    /// Cloning copies every field.
    fn clone(&self) -> (r: Self)
        ensures
            r == *self,
    {
        GlUniform {
            name: self.name.clone(),
            uniform_type: self.uniform_type,
            size: self.size,
            block_index: self.block_index,
            offset: self.offset,
            array_stride: self.array_stride,
            matrix_stride: self.matrix_stride,
            location: self.location,
        }
    }
}

/// A uniform not contained in a block: a "global" uniform, set directly
/// through its location.
#[derive(Debug)]
pub struct Uniform {
    /// Name of the uniform.
    pub name: String,
    /// Location of the uniform; use this when setting its value, not the
    /// position in the surrounding list — they need not agree.
    pub location: i32,
    /// Data type of the uniform.
    pub uniform_type: UniformType,
    /// How many instances of the type this uniform contains.
    pub size: i32,
}

/// The global uniform that a raw record yields, given the location to
/// set values through.
pub open spec fn spec_uniform_of(u: GlUniform, location: i32) -> Uniform {
    Uniform {
        name: u.name,
        location: location,
        uniform_type: spec_uniform_type_from_tag(u.uniform_type as u32),
        size: u.size,
    }
}

impl Uniform {
    /// Build a global uniform from its raw record and queried location.
    pub fn new(gl_uniform: GlUniform, location: i32) -> (r: Uniform)
        ensures
            r == spec_uniform_of(gl_uniform, location),
    {
        Uniform {
            name: gl_uniform.name,
            location,
            uniform_type: uniform_type_from_u32(gl_uniform.uniform_type as u32),
            size: gl_uniform.size,
        }
    }
}

/// A uniform contained within a block, set through the block's buffer
/// memory rather than a location; the byte-layout fields say where.
#[derive(Debug)]
pub struct BlockUniform {
    /// Name of the uniform.
    pub name: String,
    /// Data type of the uniform.
    pub uniform_type: UniformType,
    /// How many instances of the type this uniform contains.
    pub size: i32,
    /// Byte offset of this uniform from the beginning of its block.
    pub offset: i32,
    /// For an array uniform, the distance between consecutive elements.
    pub array_stride: i32,
    /// Distance between the rows or columns of a matrix uniform.
    pub matrix_stride: i32,
}

/// The block member that a raw record yields.
pub open spec fn spec_block_uniform_of(u: GlUniform) -> BlockUniform {
    BlockUniform {
        name: u.name,
        uniform_type: spec_uniform_type_from_tag(u.uniform_type as u32),
        size: u.size,
        offset: u.offset,
        array_stride: u.array_stride,
        matrix_stride: u.matrix_stride,
    }
}

impl BlockUniform {
    /// Build a block member from its raw record.
    pub fn new(gl_uniform: GlUniform) -> (r: BlockUniform)
        ensures
            r == spec_block_uniform_of(gl_uniform),
    {
        BlockUniform {
            name: gl_uniform.name,
            uniform_type: uniform_type_from_u32(gl_uniform.uniform_type as u32),
            size: gl_uniform.size,
            offset: gl_uniform.offset,
            array_stride: gl_uniform.array_stride,
            matrix_stride: gl_uniform.matrix_stride,
        }
    }
}

impl Clone for BlockUniform {
    /// Cloning copies every field.
    fn clone(&self) -> (r: Self)
        ensures
            r == *self,
    {
        BlockUniform {
            name: self.name.clone(),
            uniform_type: self.uniform_type,
            size: self.size,
            offset: self.offset,
            array_stride: self.array_stride,
            matrix_stride: self.matrix_stride,
        }
    }
}

/// Description of an interface block: a named group of uniforms backed
/// by buffer memory.
#[derive(Debug)]
pub struct InterfaceBlock {
    /// Name of the block.
    pub name: String,
    /// The block's driver index; use this as the binding index, not the
    /// position in the surrounding list.
    pub index: u32,
    /// The block's data size in bytes.
    pub data_size: i32,
    /// The uniforms contained by this block.
    pub uniforms: Vec<BlockUniform>,
}

impl Clone for InterfaceBlock {
    /// Cloning copies the block description and every member.
    fn clone(&self) -> (r: Self)
        ensures
            r.name == self.name,
            r.index == self.index,
            r.data_size == self.data_size,
            r.uniforms@ == self.uniforms@,
    {
        let mut uniforms: Vec<BlockUniform> = Vec::new();
        let mut i: usize = 0;
        while i < self.uniforms.len()
            invariant
                i <= self.uniforms@.len(),
                uniforms@.len() == i,
                forall|k: int| 0 <= k < i ==> (#[trigger] uniforms@[k]) == self.uniforms@[k],
            decreases self.uniforms@.len() - i,
        {
            uniforms.push(self.uniforms[i].clone());
            i = i + 1;
        }
        proof {
            assert(uniforms@ =~= self.uniforms@);
        }
        InterfaceBlock {
            name: self.name.clone(),
            index: self.index,
            data_size: self.data_size,
            uniforms,
        }
    }
}

/// Some block member at or after position 0 carries this name, and `i`
/// is the first position that does.
pub open spec fn spec_first_block_uniform_at(us: Seq<BlockUniform>, name: Seq<char>, i: int) -> bool {
    &&& 0 <= i < us.len()
    &&& us[i].name@ == name
    &&& forall|k: int| 0 <= k < i ==> us[k].name@ != name
}

impl InterfaceBlock {
    /// Seek a uniform of this block by name; the first match is returned.
    pub fn get_uniform(&self, name: &str) -> (r: Option<&BlockUniform>)
        ensures
            match r {
                Some(u) => exists|i: int|
                    spec_first_block_uniform_at(self.uniforms@, name@, i) && *u == self.uniforms@[i],
                None => forall|i: int| 0 <= i < self.uniforms@.len() ==> self.uniforms@[i].name@ != name@,
            },
    {
        let wanted = name.to_owned();
        let mut i: usize = 0;
        while i < self.uniforms.len()
            invariant
                i <= self.uniforms@.len(),
                wanted@ == name@,
                forall|k: int| 0 <= k < i ==> self.uniforms@[k].name@ != name@,
            decreases self.uniforms@.len() - i,
        {
            if self.uniforms[i].name == wanted {
                proof {
                    assert(spec_first_block_uniform_at(self.uniforms@, name@, i as int));
                }
                return Some(&self.uniforms[i]);
            }
            i = i + 1;
        }
        None
    }
}

/// Some global uniform carries this name, and `i` is the first position
/// that does.
pub open spec fn spec_first_uniform_at(us: Seq<Uniform>, name: Seq<char>, i: int) -> bool {
    &&& 0 <= i < us.len()
    &&& us[i].name@ == name
    &&& forall|k: int| 0 <= k < i ==> us[k].name@ != name
}

/// Some block carries this name, and `i` is the first position that
/// does.
pub open spec fn spec_first_block_at(blocks: Seq<InterfaceBlock>, name: Seq<char>, i: int) -> bool {
    &&& 0 <= i < blocks.len()
    &&& blocks[i].name@ == name
    &&& forall|k: int| 0 <= k < i ==> blocks[k].name@ != name
}

/// Top-level result structure of a program's uniform introspection.
#[derive(Debug)]
pub struct UniformInfo {
    /// Global uniforms, not contained in interface blocks.
    pub globals: Vec<Uniform>,
    /// Interface block definitions, each carrying its own uniforms.
    pub blocks: Vec<InterfaceBlock>,
}

impl UniformInfo {
    /// Seek a global uniform by name; the first match is returned.
    pub fn get_global_uniform(&self, name: &str) -> (r: Option<&Uniform>)
        ensures
            match r {
                Some(u) => exists|i: int|
                    spec_first_uniform_at(self.globals@, name@, i) && *u == self.globals@[i],
                None => forall|i: int| 0 <= i < self.globals@.len() ==> self.globals@[i].name@ != name@,
            },
    {
        let wanted = name.to_owned();
        let mut i: usize = 0;
        while i < self.globals.len()
            invariant
                i <= self.globals@.len(),
                wanted@ == name@,
                forall|k: int| 0 <= k < i ==> self.globals@[k].name@ != name@,
            decreases self.globals@.len() - i,
        {
            if self.globals[i].name == wanted {
                proof {
                    assert(spec_first_uniform_at(self.globals@, name@, i as int));
                }
                return Some(&self.globals[i]);
            }
            i = i + 1;
        }
        None
    }

    /// Seek an interface block by name; the first match is returned.
    pub fn get_block(&self, name: &str) -> (r: Option<&InterfaceBlock>)
        ensures
            match r {
                Some(b) => exists|i: int|
                    spec_first_block_at(self.blocks@, name@, i) && *b == self.blocks@[i],
                None => forall|i: int| 0 <= i < self.blocks@.len() ==> self.blocks@[i].name@ != name@,
            },
    {
        let wanted = name.to_owned();
        let mut i: usize = 0;
        while i < self.blocks.len()
            invariant
                i <= self.blocks@.len(),
                wanted@ == name@,
                forall|k: int| 0 <= k < i ==> self.blocks@[k].name@ != name@,
            decreases self.blocks@.len() - i,
        {
            if self.blocks[i].name == wanted {
                proof {
                    assert(spec_first_block_at(self.blocks@, name@, i as int));
                }
                return Some(&self.blocks[i]);
            }
            i = i + 1;
        }
        None
    }

    /// Seek a uniform by name inside the first block with the given
    /// block name.
    pub fn get_block_uniform(&self, block_name: &str, uniform_name: &str) -> (r: Option<
        &BlockUniform,
    >)
        ensures
            r matches Some(u) ==> exists|j: int, i: int|
                spec_first_block_at(self.blocks@, block_name@, j) && spec_first_block_uniform_at(
                    self.blocks@[j].uniforms@,
                    uniform_name@,
                    i,
                ) && *u == self.blocks@[j].uniforms@[i],
            r is None ==> (forall|j: int|
                0 <= j < self.blocks@.len() ==> self.blocks@[j].name@ != block_name@) || (exists|
                j: int,
            |
                spec_first_block_at(self.blocks@, block_name@, j) && (forall|i: int|
                    0 <= i < self.blocks@[j].uniforms@.len() ==> self.blocks@[j].uniforms@[i].name@
                        != uniform_name@)),
    {
        if let Some(block) = self.get_block(block_name) {
            return block.get_uniform(uniform_name);
        }
        None
    }
}

/// The global uniforms among the raw records, in order, each carrying
/// the location its record reported.
pub open spec fn spec_globals(us: Seq<GlUniform>) -> Seq<Uniform>
    decreases us.len(),
{
    if us.len() == 0 {
        Seq::<Uniform>::empty()
    } else {
        let rest = spec_globals(us.skip(1));
        if us[0].block_index < 0 {
            seq![spec_uniform_of(us[0], us[0].location)] + rest
        } else {
            rest
        }
    }
}

/// The members of block `block` among the raw records, in order.
pub open spec fn spec_block_members(us: Seq<GlUniform>, block: int) -> Seq<BlockUniform>
    decreases us.len(),
{
    if us.len() == 0 {
        Seq::<BlockUniform>::empty()
    } else {
        let rest = spec_block_members(us.skip(1), block);
        if us[0].block_index == block {
            seq![spec_block_uniform_of(us[0])] + rest
        } else {
            rest
        }
    }
}

/// Unrolling [`spec_globals`] from the back.
pub proof fn lemma_globals_unsnoc(us: Seq<GlUniform>)
    requires
        us.len() > 0,
    ensures
        spec_globals(us) == spec_globals(us.drop_last()) + (
        if us.last().block_index < 0 {
            seq![spec_uniform_of(us.last(), us.last().location)]
        } else {
            Seq::<Uniform>::empty()
        }),
    decreases us.len(),
{
    if us.len() == 1 {
        assert(us.skip(1) =~= Seq::<GlUniform>::empty());
        assert(us.drop_last() =~= Seq::<GlUniform>::empty());
        assert(us.last() == us[0]);
        assert(spec_globals(Seq::<GlUniform>::empty()) == Seq::<Uniform>::empty());
        assert(spec_globals(us) =~= spec_globals(us.drop_last()) + (
        if us.last().block_index < 0 {
            seq![spec_uniform_of(us.last(), us.last().location)]
        } else {
            Seq::<Uniform>::empty()
        }));
    } else {
        let tail = us.skip(1);
        let shorter = us.drop_last();
        let head: Seq<Uniform> = if us[0].block_index < 0 {
            seq![spec_uniform_of(us[0], us[0].location)]
        } else {
            Seq::<Uniform>::empty()
        };
        let last_part: Seq<Uniform> = if us.last().block_index < 0 {
            seq![spec_uniform_of(us.last(), us.last().location)]
        } else {
            Seq::<Uniform>::empty()
        };
        lemma_globals_unsnoc(tail);
        assert(tail.drop_last() =~= shorter.skip(1));
        assert(tail.last() == us.last());
        assert(shorter[0] == us[0]);
        assert(spec_globals(us) =~= head + spec_globals(tail));
        assert(spec_globals(tail) == spec_globals(tail.drop_last()) + last_part);
        assert(spec_globals(shorter) =~= head + spec_globals(tail.drop_last()));
        assert(spec_globals(us) =~= spec_globals(shorter) + last_part);
    }
}

/// Unrolling [`spec_block_members`] from the back.
pub proof fn lemma_members_unsnoc(us: Seq<GlUniform>, block: int)
    requires
        us.len() > 0,
    ensures
        spec_block_members(us, block) == spec_block_members(us.drop_last(), block) + (
        if us.last().block_index == block {
            seq![spec_block_uniform_of(us.last())]
        } else {
            Seq::<BlockUniform>::empty()
        }),
    decreases us.len(),
{
    if us.len() == 1 {
        assert(us.skip(1) =~= Seq::<GlUniform>::empty());
        assert(us.drop_last() =~= Seq::<GlUniform>::empty());
        assert(spec_block_members(us, block) =~= spec_block_members(us.drop_last(), block) + (
        if us.last().block_index == block {
            seq![spec_block_uniform_of(us.last())]
        } else {
            Seq::<BlockUniform>::empty()
        }));
    } else {
        lemma_members_unsnoc(us.skip(1), block);
        assert(us.skip(1).drop_last() =~= us.drop_last().skip(1));
        assert(us.skip(1).last() == us.last());
        assert(us.drop_last()[0] == us[0]);
        assert(spec_block_members(us, block) =~= spec_block_members(us.drop_last(), block) + (
        if us.last().block_index == block {
            seq![spec_block_uniform_of(us.last())]
        } else {
            Seq::<BlockUniform>::empty()
        }));
    }
}

/// How many raw records land in the blocks `0` through `block_count - 1`
/// taken together.
pub open spec fn spec_block_total(us: Seq<GlUniform>, block_count: int) -> int
    decreases block_count,
{
    if block_count <= 0 {
        0
    } else {
        spec_block_total(us, block_count - 1) + spec_block_members(us, block_count - 1).len()
    }
}

proof fn lemma_block_total_empty(block_count: int)
    requires
        block_count >= 0,
    ensures
        spec_block_total(Seq::<GlUniform>::empty(), block_count) == 0,
    decreases block_count,
{
    if block_count > 0 {
        lemma_block_total_empty(block_count - 1);
    }
}

proof fn lemma_block_total_cons(us: Seq<GlUniform>, block_count: int)
    requires
        us.len() > 0,
        block_count >= 0,
    ensures
        spec_block_total(us, block_count) == spec_block_total(us.skip(1), block_count) + (
        if 0 <= us[0].block_index < block_count {
            1int
        } else {
            0int
        }),
    decreases block_count,
{
    if block_count > 0 {
        lemma_block_total_cons(us, block_count - 1);
    }
}

/// The partition law of uniform introspection: with every reported block
/// index below the block count, each raw record lands either among the
/// globals (negative block index) or in exactly one block's member list,
/// and nothing is lost or duplicated — the counts add up exactly.
pub proof fn lemma_uniform_partition(us: Seq<GlUniform>, block_count: int)
    requires
        block_count >= 0,
        forall|i: int| 0 <= i < us.len() ==> (#[trigger] us[i].block_index) < block_count,
    ensures
        spec_globals(us).len() + spec_block_total(us, block_count) == us.len(),
    decreases us.len(),
{
    if us.len() == 0 {
        assert(us =~= Seq::<GlUniform>::empty());
        lemma_block_total_empty(block_count);
    } else {
        assert forall|i: int| 0 <= i < us.skip(1).len() implies (#[trigger] us.skip(
            1,
        )[i].block_index) < block_count by {
            assert(us.skip(1)[i] == us[i + 1]);
            assert(us[i + 1].block_index < block_count);
        }
        lemma_uniform_partition(us.skip(1), block_count);
        lemma_block_total_cons(us, block_count);
        assert(us[0].block_index < block_count);
        let counted_global: int = if us[0].block_index < 0 { 1 } else { 0 };
        let counted_member: int = if 0 <= us[0].block_index < block_count { 1 } else { 0 };
        assert(counted_global + counted_member == 1);
        assert(spec_globals(us).len() == spec_globals(us.skip(1)).len() + counted_global);
        assert(spec_block_total(us, block_count) == spec_block_total(us.skip(1), block_count)
            + counted_member);
        assert(spec_globals(us.skip(1)).len() + spec_block_total(us.skip(1), block_count)
            == us.skip(1).len());
        assert(us.skip(1).len() == us.len() - 1);
    }
}

/// Zip the batched per-property query results into raw uniform records:
/// entry `i` of every list describes active uniform `i`.
///
/// `locations` carries the separately queried uniform locations; only
/// the entries of uniforms outside blocks are meaningful.
pub fn make_gl_uniform_info_vec(
    names: Vec<String>,
    types: &[i32],
    sizes: &[i32],
    block_indices: &[i32],
    offsets: &[i32],
    array_strides: &[i32],
    matrix_strides: &[i32],
    locations: &[i32],
) -> (r: Vec<GlUniform>)
    requires
        types@.len() == names@.len(),
        sizes@.len() == names@.len(),
        block_indices@.len() == names@.len(),
        offsets@.len() == names@.len(),
        array_strides@.len() == names@.len(),
        matrix_strides@.len() == names@.len(),
        locations@.len() == names@.len(),
    ensures
        r@.len() == names@.len(),
        forall|i: int|
            0 <= i < names@.len() ==> (#[trigger] r@[i]) == (GlUniform {
                name: names@[i],
                uniform_type: types@[i],
                size: sizes@[i],
                block_index: block_indices@[i],
                offset: offsets@[i],
                array_stride: array_strides@[i],
                matrix_stride: matrix_strides@[i],
                location: locations@[i],
            }),
{
    let ghost given_names = names@;
    let mut names = names;
    let mut result: Vec<GlUniform> = Vec::new();
    let mut i: usize = 0;
    while names.len() > 0
        invariant
            i + names@.len() == given_names.len(),
            names@ == given_names.skip(i as int),
            types@.len() == given_names.len(),
            sizes@.len() == given_names.len(),
            block_indices@.len() == given_names.len(),
            offsets@.len() == given_names.len(),
            array_strides@.len() == given_names.len(),
            matrix_strides@.len() == given_names.len(),
            locations@.len() == given_names.len(),
            result@.len() == i,
            forall|k: int|
                0 <= k < i ==> (#[trigger] result@[k]) == (GlUniform {
                    name: given_names[k],
                    uniform_type: types@[k],
                    size: sizes@[k],
                    block_index: block_indices@[k],
                    offset: offsets@[k],
                    array_stride: array_strides@[k],
                    matrix_stride: matrix_strides@[k],
                    location: locations@[k],
                }),
        decreases names@.len(),
    {
        let name = names.remove(0);
        result.push(
            GlUniform {
                name,
                uniform_type: types[i],
                size: sizes[i],
                block_index: block_indices[i],
                offset: offsets[i],
                array_stride: array_strides[i],
                matrix_stride: matrix_strides[i],
                location: locations[i],
            },
        );
        i = i + 1;
        proof {
            assert(names@ =~= given_names.skip(i as int));
        }
    }
    result
}

/// Zip the per-block query results into block descriptions with empty
/// member lists: entry `i` of every list describes active uniform block
/// `i`.  The index list carries each block's index as re-resolved by
/// name, since index assignment order is not guaranteed stable across
/// query passes.
pub fn make_uniform_block_info_vec(names: Vec<String>, data_sizes: &[i32], indices: &[u32]) -> (r:
    Vec<InterfaceBlock>)
    requires
        data_sizes@.len() == names@.len(),
        indices@.len() == names@.len(),
    ensures
        r@.len() == names@.len(),
        forall|i: int|
            0 <= i < names@.len() ==> {
                let b = #[trigger] r@[i];
                &&& b.name == names@[i]
                &&& b.index == indices@[i]
                &&& b.data_size == data_sizes@[i]
                &&& b.uniforms@ == Seq::<BlockUniform>::empty()
            },
{
    let ghost given_names = names@;
    let mut names = names;
    let mut result: Vec<InterfaceBlock> = Vec::new();
    let mut i: usize = 0;
    while names.len() > 0
        invariant
            i + names@.len() == given_names.len(),
            names@ == given_names.skip(i as int),
            data_sizes@.len() == given_names.len(),
            indices@.len() == given_names.len(),
            result@.len() == i,
            forall|k: int|
                0 <= k < i ==> {
                    let b = #[trigger] result@[k];
                    &&& b.name == given_names[k]
                    &&& b.index == indices@[k]
                    &&& b.data_size == data_sizes@[k]
                    &&& b.uniforms@ == Seq::<BlockUniform>::empty()
                },
        decreases names@.len(),
    {
        let name = names.remove(0);
        result.push(
            InterfaceBlock { name, index: indices[i], data_size: data_sizes[i], uniforms: Vec::new() },
        );
        i = i + 1;
        proof {
            assert(names@ =~= given_names.skip(i as int));
        }
    }
    result
}

/// Compile the raw introspection records into the structured report.
///
/// Every raw record with a negative block index becomes a global
/// uniform, carrying the location its record reported; every record
/// with a nonnegative block index is appended, in order, to the member
/// list of the block at that position.  Membership is decided by the
/// reported block index alone, so no uniform appears both as a global
/// and as a block member; see [`lemma_uniform_partition`].
pub fn make_uniform_info(gl_uniforms: Vec<GlUniform>, blocks: Vec<InterfaceBlock>) -> (r:
    UniformInfo)
    requires
        blocks@.len() <= i32::MAX,
        forall|i: int|
            0 <= i < gl_uniforms@.len() ==> (#[trigger] gl_uniforms@[i].block_index)
                < blocks@.len(),
    ensures
        r.globals@ == spec_globals(gl_uniforms@),
        r.blocks@.len() == blocks@.len(),
        forall|j: int|
            0 <= j < blocks@.len() ==> {
                let b = #[trigger] r.blocks@[j];
                &&& b.name == blocks@[j].name
                &&& b.index == blocks@[j].index
                &&& b.data_size == blocks@[j].data_size
                &&& b.uniforms@ == blocks@[j].uniforms@ + spec_block_members(gl_uniforms@, j)
            },
{
    let ghost us = gl_uniforms@;
    let ghost given_blocks = blocks@;
    let mut globals: Vec<Uniform> = Vec::new();
    let mut i: usize = 0;
    while i < gl_uniforms.len()
        invariant
            i <= us.len(),
            us == gl_uniforms@,
            globals@ == spec_globals(us.take(i as int)),
        decreases us.len() - i,
    {
        let uniform = &gl_uniforms[i];
        if uniform.block_index < 0 {
            let location = uniform.location;
            globals.push(Uniform::new(uniform.clone(), location));
        }
        proof {
            lemma_globals_unsnoc(us.take(i + 1));
            assert(us.take(i + 1).drop_last() =~= us.take(i as int));
            assert(us.take(i + 1).last() == us[i as int]);
            assert(globals@ =~= spec_globals(us.take(i + 1)));
        }
        i = i + 1;
    }
    proof {
        assert(us.take(us.len() as int) =~= us);
    }
    let mut remaining = blocks;
    let mut result_blocks: Vec<InterfaceBlock> = Vec::new();
    let mut j: usize = 0;
    while remaining.len() > 0
        invariant
            j + remaining@.len() == given_blocks.len(),
            given_blocks.len() <= i32::MAX,
            remaining@ == given_blocks.skip(j as int),
            us == gl_uniforms@,
            result_blocks@.len() == j,
            forall|k: int|
                0 <= k < j ==> {
                    let b = #[trigger] result_blocks@[k];
                    &&& b.name == given_blocks[k].name
                    &&& b.index == given_blocks[k].index
                    &&& b.data_size == given_blocks[k].data_size
                    &&& b.uniforms@ == given_blocks[k].uniforms@ + spec_block_members(us, k)
                },
        decreases remaining@.len(),
    {
        let mut block = remaining.remove(0);
        let ghost base = block.uniforms@;
        let mut m: usize = 0;
        while m < gl_uniforms.len()
            invariant
                m <= us.len(),
                us == gl_uniforms@,
                j < given_blocks.len() <= i32::MAX,
                block.name == given_blocks[j as int].name,
                block.index == given_blocks[j as int].index,
                block.data_size == given_blocks[j as int].data_size,
                base == given_blocks[j as int].uniforms@,
                block.uniforms@ == base + spec_block_members(us.take(m as int), j as int),
            decreases us.len() - m,
        {
            let uniform = &gl_uniforms[m];
            if uniform.block_index >= 0 && uniform.block_index == j as i32 {
                block.uniforms.push(BlockUniform::new(uniform.clone()));
            }
            proof {
                lemma_members_unsnoc(us.take(m + 1), j as int);
                assert(us.take(m + 1).drop_last() =~= us.take(m as int));
                assert(us.take(m + 1).last() == us[m as int]);
                assert(block.uniforms@ =~= base + spec_block_members(us.take(m + 1), j as int));
            }
            m = m + 1;
        }
        proof {
            assert(us.take(us.len() as int) =~= us);
        }
        result_blocks.push(block);
        j = j + 1;
        proof {
            assert(remaining@ =~= given_blocks.skip(j as int));
        }
    }
    UniformInfo { globals, blocks: result_blocks }
}

} // verus!
