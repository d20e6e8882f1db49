//! Index buffers: buffers bound to the element-index target.  The driver
//! treats the element-index binding as part of vertex-array state, so an
//! index buffer is only ever edited through the vertex array it belongs to.

use vstd::prelude::*;

use crate::context::same_bindings;
use crate::context::same_render_targets;
use crate::context::Context;
use crate::context::RegistrationHandle;
use crate::driver::BufferPayload;
use crate::driver::DriverCall;
use crate::handle::HandleAccess;
use crate::tracker::bind_step;
use crate::tracker::Bind;
use crate::tracker::TrackerId;
use crate::vertexarray::VertexArray;
use crate::VertexArrayHandle;

use super::BufferObject;
use super::BufferType;

verus! {

/// Type tag distinguishing index buffers.
pub struct IndexBufferTag;

/// A buffer used through the element-index binding target.
pub type IndexBuffer = BufferObject<IndexBufferTag>;

/// Create an index buffer wrapping the driver object named `name`.
pub fn new_index_buffer(tracker_id: TrackerId, name: u32, registration: RegistrationHandle) -> (r:
    IndexBuffer)
    ensures
        r.spec_name() == name,
        r.id_spec() == tracker_id.spec_id(),
        r.spec_target() == BufferType::IndexBuffer,
{
    BufferObject::new(tracker_id, BufferType::IndexBuffer, name, registration)
}

/// Bind the vertex array the index buffer is attached to and hand out an
/// editor for that index buffer.
///
/// The editor is constructed from the *vertex array* because the driver
/// only addresses an element-index buffer through the vertex array it is
/// attached to.  When the vertex array has no index buffer attached, the
/// editor's uploads record nothing.
pub fn new_index_buffer_editor(context: &mut Context, vertex_array: &VertexArrayHandle) -> (r:
    IndexBufferEditor)
    ensures
        r.spec_vertex_array() == vertex_array.res(),
        final(context).spec_vao_bound() == vertex_array.res().id_spec(),
        (final(context).spec_vao_bound(), final(context).spec_calls()) == bind_step(
            old(context).spec_vao_bound(),
            vertex_array.res().id_spec(),
            vertex_array.res().bind_call_spec(),
            old(context).spec_calls(),
        ),
        final(context).spec_vbo_bound() == old(context).spec_vbo_bound(),
        final(context).spec_ubo_bound() == old(context).spec_ubo_bound(),
        final(context).spec_program_bound() == old(context).spec_program_bound(),
        same_render_targets(*old(context), *final(context)),
        final(context).spec_counter() == old(context).spec_counter(),
        final(context).spec_info() == old(context).spec_info(),
{
    context.bind_vao_for_editing(vertex_array.access());
    IndexBufferEditor { vertex_array: vertex_array.clone() }
}

/// Edits the contents of the index buffer attached to one vertex array.
///
/// The editor's operations demand — and the verifier checks — that the
/// owning vertex array is still the bound one when data is uploaded: the
/// driver routes element-index uploads through the bound vertex array.
pub struct IndexBufferEditor {
    vertex_array: VertexArrayHandle,
}

impl IndexBufferEditor {
    /// The vertex array whose index buffer is being edited.
    pub closed spec fn spec_vertex_array(&self) -> VertexArray {
        self.vertex_array.res()
    }

    /// The call log after an upload: extended when the vertex array has
    /// an index buffer attached, untouched when it has none.
    pub open spec fn spec_after_upload(&self, calls: Seq<DriverCall>, call: DriverCall) -> Seq<
        DriverCall,
    > {
        if self.spec_vertex_array().spec_index_buffer() is Some {
            calls.push(call)
        } else {
            calls
        }
    }

    /// Replace the whole index buffer with bytes.
    pub fn data_u8(&mut self, context: &mut Context, data: Vec<u8>)
        requires
            old(context).spec_vao_bound() == old(self).spec_vertex_array().id_spec(),
        ensures
            *final(self) == *old(self),
            final(context).spec_calls() == old(self).spec_after_upload(
                old(context).spec_calls(),
                DriverCall::BufferData {
                    target: BufferType::IndexBuffer,
                    data: BufferPayload::Bytes(data),
                },
            ),
            same_bindings(*old(context), *final(context)),
            final(context).spec_counter() == old(context).spec_counter(),
            final(context).spec_info() == old(context).spec_info(),
    {
        self.upload(context, BufferPayload::Bytes(data));
    }

    /// Replace the whole index buffer with 16-bit indices.
    pub fn data_u16(&mut self, context: &mut Context, data: Vec<u16>)
        requires
            old(context).spec_vao_bound() == old(self).spec_vertex_array().id_spec(),
        ensures
            *final(self) == *old(self),
            final(context).spec_calls() == old(self).spec_after_upload(
                old(context).spec_calls(),
                DriverCall::BufferData {
                    target: BufferType::IndexBuffer,
                    data: BufferPayload::ElementsU16(data),
                },
            ),
            same_bindings(*old(context), *final(context)),
            final(context).spec_counter() == old(context).spec_counter(),
            final(context).spec_info() == old(context).spec_info(),
    {
        self.upload(context, BufferPayload::ElementsU16(data));
    }

    /// Replace the whole index buffer with 32-bit indices.
    pub fn data_u32(&mut self, context: &mut Context, data: Vec<u32>)
        requires
            old(context).spec_vao_bound() == old(self).spec_vertex_array().id_spec(),
        ensures
            *final(self) == *old(self),
            final(context).spec_calls() == old(self).spec_after_upload(
                old(context).spec_calls(),
                DriverCall::BufferData {
                    target: BufferType::IndexBuffer,
                    data: BufferPayload::ElementsU32(data),
                },
            ),
            same_bindings(*old(context), *final(context)),
            final(context).spec_counter() == old(context).spec_counter(),
            final(context).spec_info() == old(context).spec_info(),
    {
        self.upload(context, BufferPayload::ElementsU32(data));
    }

    /// Replace a byte range of the index buffer.
    pub fn sub_data_u8(&mut self, context: &mut Context, data: Vec<u8>, byte_offset: usize)
        requires
            old(context).spec_vao_bound() == old(self).spec_vertex_array().id_spec(),
        ensures
            *final(self) == *old(self),
            final(context).spec_calls() == old(self).spec_after_upload(
                old(context).spec_calls(),
                DriverCall::BufferSubData {
                    target: BufferType::IndexBuffer,
                    byte_offset: byte_offset,
                    data: BufferPayload::Bytes(data),
                },
            ),
            same_bindings(*old(context), *final(context)),
            final(context).spec_counter() == old(context).spec_counter(),
            final(context).spec_info() == old(context).spec_info(),
    {
        self.sub_upload(context, BufferPayload::Bytes(data), byte_offset);
    }

    /// Replace a range of the index buffer with 16-bit indices.
    pub fn sub_data_u16(&mut self, context: &mut Context, data: Vec<u16>, byte_offset: usize)
        requires
            old(context).spec_vao_bound() == old(self).spec_vertex_array().id_spec(),
        ensures
            *final(self) == *old(self),
            final(context).spec_calls() == old(self).spec_after_upload(
                old(context).spec_calls(),
                DriverCall::BufferSubData {
                    target: BufferType::IndexBuffer,
                    byte_offset: byte_offset,
                    data: BufferPayload::ElementsU16(data),
                },
            ),
            same_bindings(*old(context), *final(context)),
            final(context).spec_counter() == old(context).spec_counter(),
            final(context).spec_info() == old(context).spec_info(),
    {
        self.sub_upload(context, BufferPayload::ElementsU16(data), byte_offset);
    }

    /// Replace a range of the index buffer with 32-bit indices.
    pub fn sub_data_u32(&mut self, context: &mut Context, data: Vec<u32>, byte_offset: usize)
        requires
            old(context).spec_vao_bound() == old(self).spec_vertex_array().id_spec(),
        ensures
            *final(self) == *old(self),
            final(context).spec_calls() == old(self).spec_after_upload(
                old(context).spec_calls(),
                DriverCall::BufferSubData {
                    target: BufferType::IndexBuffer,
                    byte_offset: byte_offset,
                    data: BufferPayload::ElementsU32(data),
                },
            ),
            same_bindings(*old(context), *final(context)),
            final(context).spec_counter() == old(context).spec_counter(),
            final(context).spec_info() == old(context).spec_info(),
    {
        self.sub_upload(context, BufferPayload::ElementsU32(data), byte_offset);
    }

    fn upload(&mut self, context: &mut Context, data: BufferPayload)
        requires
            old(context).spec_vao_bound() == old(self).spec_vertex_array().id_spec(),
        ensures
            *final(self) == *old(self),
            final(context).spec_calls() == old(self).spec_after_upload(
                old(context).spec_calls(),
                DriverCall::BufferData { target: BufferType::IndexBuffer, data: data },
            ),
            same_bindings(*old(context), *final(context)),
            final(context).spec_counter() == old(context).spec_counter(),
            final(context).spec_info() == old(context).spec_info(),
    {
        match self.vertex_array.access().index_buffer() {
            Some(_) => {
                context.record(
                    DriverCall::BufferData { target: BufferType::IndexBuffer, data },
                );
            },
            None => {},
        }
    }

    fn sub_upload(&mut self, context: &mut Context, data: BufferPayload, byte_offset: usize)
        requires
            old(context).spec_vao_bound() == old(self).spec_vertex_array().id_spec(),
        ensures
            *final(self) == *old(self),
            final(context).spec_calls() == old(self).spec_after_upload(
                old(context).spec_calls(),
                DriverCall::BufferSubData {
                    target: BufferType::IndexBuffer,
                    byte_offset: byte_offset,
                    data: data,
                },
            ),
            same_bindings(*old(context), *final(context)),
            final(context).spec_counter() == old(context).spec_counter(),
            final(context).spec_info() == old(context).spec_info(),
    {
        match self.vertex_array.access().index_buffer() {
            Some(_) => {
                context.record(
                    DriverCall::BufferSubData {
                        target: BufferType::IndexBuffer,
                        byte_offset,
                        data,
                    },
                );
            },
            None => {},
        }
    }
}

} // verus!
