//! Unchanging, queried-once values describing the driver context, grouped
//! by topic rather than left as a long list of raw query results.

use vstd::prelude::*;

verus! {

/// Context-wide limits.  The fields act as categories; today only the
/// uniform-buffer limits are collected.
#[derive(Debug, Clone, Copy, PartialEq, Eq, Structural)]
pub struct ContextInfo {
    /// Limits related to uniform buffers.
    pub uniform_buffer: UniformBufferInfo,
}

/// The driver's limits on uniform buffers and uniform blocks.
#[derive(Debug, Clone, Copy, PartialEq, Eq, Structural)]
pub struct UniformBufferInfo {
    /// How many uniform-buffer binding points exist.
    pub max_bindings: i32,
    /// How many uniform blocks a geometry shader may use.
    pub max_geometry_blocks: i32,
    /// How many uniform blocks a vertex shader may use.
    pub max_vertex_blocks: i32,
    /// How many uniform blocks a fragment shader may use.
    pub max_fragment_blocks: i32,
    /// The largest allowed uniform block, in bytes.
    pub max_block_size: i32,
    /// The required alignment of uniform-buffer binding offsets.
    pub offset_alignment: i32,
}

/// Assemble a [`ContextInfo`] from the queried limit values.
pub fn build_info(
    max_bindings: i32,
    max_vertex_blocks: i32,
    max_geometry_blocks: i32,
    max_fragment_blocks: i32,
    max_block_size: i32,
    offset_alignment: i32,
) -> (r: ContextInfo)
    ensures
        r == (ContextInfo {
            uniform_buffer: UniformBufferInfo {
                max_bindings,
                max_geometry_blocks,
                max_vertex_blocks,
                max_fragment_blocks,
                max_block_size,
                offset_alignment,
            },
        }),
{
    ContextInfo {
        uniform_buffer: UniformBufferInfo {
            max_bindings,
            max_geometry_blocks,
            max_vertex_blocks,
            max_fragment_blocks,
            max_block_size,
            offset_alignment,
        },
    }
}

} // verus!
