//! The record of calls made outward into the graphics driver.
//!
//! The library never calls the driver directly.  Every operation that a
//! direct binding would perform right away is instead appended to a call
//! log as a [`DriverCall`] value, and the embedding program replays the
//! log against the real driver in order.  Contracts throughout the crate
//! state exactly which calls an operation appends, so properties such as
//! "a redundant bind appends nothing" are checked by the verifier.

use vstd::prelude::*;

use crate::buffer::BufferType;
use crate::program::uniform::SimpleUniformTypeFloat;
use crate::program::uniform::SimpleUniformTypeI32;
use crate::program::uniform::SimpleUniformTypeMatrix;
use crate::program::uniform::SimpleUniformTypeU32;
use crate::renderer::IndexType;
use crate::renderer::PrimitiveMode;
use crate::vertexarray::VertexAttributeType;

verus! {

/// Raw contents handed to a buffer-upload call.
///
/// The driver receives a plain pointer and a byte size; the variants keep
/// the element width so the embedding program can hand the driver the right
/// size without reinterpreting memory inside the library.
#[derive(Debug, PartialEq)]
pub enum BufferPayload {
    Bytes(Vec<u8>),
    ElementsU16(Vec<u16>),
    ElementsU32(Vec<u32>),
}

/// One call into the graphics driver, recorded instead of performed.
///
/// Resource names (`name`, `shader`, `program`) are the driver-assigned
/// object names, not the library's own tracker identifiers.
#[derive(Debug, PartialEq)]
#[allow(inconsistent_fields)]
pub enum DriverCall {
    BindBuffer { target: BufferType, name: u32 },
    BindVertexArray { name: u32 },
    UseProgram { name: u32 },
    DeleteBuffer { name: u32 },
    DeleteVertexArray { name: u32 },
    DeleteShader { name: u32 },
    DeleteProgram { name: u32 },
    BufferData { target: BufferType, data: BufferPayload },
    BufferSubData { target: BufferType, byte_offset: usize, data: BufferPayload },
    EnableVertexAttribute { index: u32 },
    DescribeVertexAttribute {
        index: u32,
        size: u8,
        attribute_type: VertexAttributeType,
        normalized: bool,
        stride: u32,
        offset: u32,
    },
    ShaderSource { shader: u32, source: String },
    CompileShader { shader: u32 },
    AttachShader { program: u32, shader: u32 },
    LinkProgram { program: u32 },
    UniformF32 { location: i32, count: usize, shape: SimpleUniformTypeFloat, value_bits: Vec<u32> },
    UniformMatrix {
        location: i32,
        count: usize,
        shape: SimpleUniformTypeMatrix,
        transpose: bool,
        value_bits: Vec<u32>,
    },
    UniformU32 { location: i32, count: usize, shape: SimpleUniformTypeU32, values: Vec<u32> },
    UniformI32 { location: i32, count: usize, shape: SimpleUniformTypeI32, values: Vec<i32> },
    DrawArrays { mode: PrimitiveMode, first: u32, count: u32 },
    DrawElements { mode: PrimitiveMode, count: u32, index_type: IndexType, start: u32 },
    Clear,
}

impl DriverCall {
    /// Whether this call tears a driver object down.  Resource release is
    /// only ever allowed to append calls of this shape.
    pub open spec fn is_delete(&self) -> bool {
        match self {
            DriverCall::DeleteBuffer { .. } => true,
            DriverCall::DeleteVertexArray { .. } => true,
            DriverCall::DeleteShader { .. } => true,
            DriverCall::DeleteProgram { .. } => true,
            _ => false,
        }
    }
}

} // verus!
