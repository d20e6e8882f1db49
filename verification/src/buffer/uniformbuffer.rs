//! Uniform buffers: buffers bound to the uniform-block target.

use vstd::prelude::*;

use crate::context::same_bindings;
use crate::context::same_render_targets;
use crate::context::Context;
use crate::context::RegistrationHandle;
use crate::driver::BufferPayload;
use crate::driver::DriverCall;
use crate::handle::HandleAccess;
use crate::tracker::bind_step;
use crate::tracker::Bind;
use crate::tracker::TrackerId;
use crate::UniformBufferHandle;

use super::BufferObject;
use super::BufferType;

verus! {

/// Type tag distinguishing uniform buffers.
pub struct UniformBufferTag;

/// A buffer used through the uniform-block binding target.
pub type UniformBuffer = BufferObject<UniformBufferTag>;

/// Create a uniform buffer wrapping the driver object named `name`.
pub fn new_uniform_buffer(tracker_id: TrackerId, name: u32, registration: RegistrationHandle) -> (r:
    UniformBuffer)
    ensures
        r.spec_name() == name,
        r.id_spec() == tracker_id.spec_id(),
        r.spec_target() == BufferType::UniformBuffer,
{
    BufferObject::new(tracker_id, BufferType::UniformBuffer, name, registration)
}

/// Bind a uniform buffer for editing and hand out an editor for it.
pub fn new_uniform_buffer_editor(context: &mut Context, uniform_buffer: &UniformBufferHandle) -> (r:
    UniformBufferEditor)
    ensures
        r.spec_buffer() == uniform_buffer.res(),
        final(context).spec_ubo_bound() == uniform_buffer.res().id_spec(),
        (final(context).spec_ubo_bound(), final(context).spec_calls()) == bind_step(
            old(context).spec_ubo_bound(),
            uniform_buffer.res().id_spec(),
            uniform_buffer.res().bind_call_spec(),
            old(context).spec_calls(),
        ),
        final(context).spec_vbo_bound() == old(context).spec_vbo_bound(),
        final(context).spec_vao_bound() == old(context).spec_vao_bound(),
        final(context).spec_program_bound() == old(context).spec_program_bound(),
        same_render_targets(*old(context), *final(context)),
        final(context).spec_counter() == old(context).spec_counter(),
        final(context).spec_info() == old(context).spec_info(),
{
    context.bind_ubo_for_editing(uniform_buffer.access());
    UniformBufferEditor { buffer: uniform_buffer.clone() }
}

/// Edits the contents of one uniform buffer.
///
/// The editor's operations demand — and the verifier checks — that the
/// edited buffer is still the bound uniform buffer when data is uploaded.
pub struct UniformBufferEditor {
    buffer: UniformBufferHandle,
}

impl UniformBufferEditor {
    /// The buffer being edited.
    pub closed spec fn spec_buffer(&self) -> UniformBuffer {
        self.buffer.res()
    }

    /// Replace the data store of the buffer object.  This effectively
    /// resizes the buffer; the old contents are lost.
    pub fn data(&mut self, context: &mut Context, data: Vec<u8>)
        requires
            old(context).spec_ubo_bound() == old(self).spec_buffer().id_spec(),
        ensures
            *final(self) == *old(self),
            final(context).spec_calls() == old(context).spec_calls().push(
                DriverCall::BufferData {
                    target: BufferType::UniformBuffer,
                    data: BufferPayload::Bytes(data),
                },
            ),
            same_bindings(*old(context), *final(context)),
            final(context).spec_counter() == old(context).spec_counter(),
            final(context).spec_info() == old(context).spec_info(),
    {
        context.record(
            DriverCall::BufferData {
                target: BufferType::UniformBuffer,
                data: BufferPayload::Bytes(data),
            },
        );
    }

    /// Replace a region of values within the buffer, without resizing it.
    pub fn sub_data(&mut self, context: &mut Context, data: Vec<u8>, byte_offset: usize)
        requires
            old(context).spec_ubo_bound() == old(self).spec_buffer().id_spec(),
        ensures
            *final(self) == *old(self),
            final(context).spec_calls() == old(context).spec_calls().push(
                DriverCall::BufferSubData {
                    target: BufferType::UniformBuffer,
                    byte_offset: byte_offset,
                    data: BufferPayload::Bytes(data),
                },
            ),
            same_bindings(*old(context), *final(context)),
            final(context).spec_counter() == old(context).spec_counter(),
            final(context).spec_info() == old(context).spec_info(),
    {
        context.record(
            DriverCall::BufferSubData {
                target: BufferType::UniformBuffer,
                byte_offset,
                data: BufferPayload::Bytes(data),
            },
        );
    }
}

} // verus!
