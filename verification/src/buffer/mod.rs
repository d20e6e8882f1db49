//! Buffer objects: bulk data stores on the driver side.
//!
//! A buffer is untyped on the driver side; the type tag only decides which
//! binding target the buffer is attached to when it is bound or edited.
//! The tag types keep vertex, index and uniform buffers apart at compile
//! time even though the underlying object is the same kind of driver
//! resource.

use core::marker::PhantomData;

use vstd::prelude::*;

use crate::context::RegistrationHandle;
use crate::driver::BufferPayload;
use crate::driver::DriverCall;
use crate::tracker::Bind;
use crate::tracker::TrackerId;

pub mod indexbuffer;
pub mod uniformbuffer;
pub mod vertexbuffer;

verus! {

/// The recognized buffer binding targets.
#[derive(Debug, Clone, Copy, PartialEq, Eq, Structural)]
pub enum BufferType {
    VertexBuffer,
    IndexBuffer,
    UniformBuffer,
}

/// A driver-side buffer object.
///
/// `id` is the driver-assigned object name; the tracker identifier is the
/// library's own, never-reused identity used by the binding trackers.
pub struct BufferObject<T> {
    /// The driver-assigned object name.
    pub id: u32,
    tracker_id: TrackerId,
    registration: RegistrationHandle,
    target: BufferType,
    marker: PhantomData<T>,
}

impl<T> BufferObject<T> {
    /// The binding target this buffer is used with.
    pub closed spec fn spec_target(&self) -> BufferType {
        self.target
    }

    /// The driver-assigned object name, for specifications.
    pub closed spec fn spec_name(&self) -> u32 {
        self.id
    }

    pub(crate) fn new(
        tracker_id: TrackerId,
        target: BufferType,
        id: u32,
        registration: RegistrationHandle,
    ) -> (r: BufferObject<T>)
        ensures
            r.spec_name() == id,
            r.id_spec() == tracker_id.spec_id(),
            r.spec_target() == target,
    {
        BufferObject { id, tracker_id, registration, target, marker: PhantomData }
    }

    /// Record a replacement of the buffer's entire data store.
    ///
    /// The driver applies the upload to whichever buffer is bound to this
    /// buffer's target, so the caller must have bound this buffer first;
    /// the editor types establish that by construction.
    pub fn data(&self, data: BufferPayload, log: &mut Vec<DriverCall>)
        ensures
            final(log)@ == old(log)@.push(
                DriverCall::BufferData { target: self.spec_target(), data: data },
            ),
    {
        log.push(DriverCall::BufferData { target: self.target, data });
    }

    /// Record a replacement of a sub-range of the buffer's data store.
    /// The same binding caveat as for [`Self::data`] applies.
    pub fn sub_data(&self, data: BufferPayload, byte_offset: usize, log: &mut Vec<DriverCall>)
        ensures
            final(log)@ == old(log)@.push(
                DriverCall::BufferSubData {
                    target: self.spec_target(),
                    byte_offset: byte_offset,
                    data: data,
                },
            ),
    {
        log.push(DriverCall::BufferSubData { target: self.target, byte_offset, data });
    }

    /// The teardown call this buffer owes the driver, gated on the owning
    /// context being alive: once the context is gone, deleting the driver
    /// object would be meaningless or unsafe, so nothing is issued.
    pub fn delete_call(&self, context_alive: bool) -> (r: Option<DriverCall>)
        ensures
            context_alive ==> r == Some(DriverCall::DeleteBuffer { name: self.spec_name() }),
            !context_alive ==> r is None,
    {
        if context_alive {
            Some(DriverCall::DeleteBuffer { name: self.id })
        } else {
            None
        }
    }

    /// Give the buffer up, returning the delete call to issue, if any.
    /// The call is present only while the owning context is alive.
    pub fn release(self) -> (r: Option<DriverCall>)
        ensures
            r matches Some(c) ==> c == (DriverCall::DeleteBuffer { name: self.spec_name() }),
    {
        let alive = self.registration.context_alive();
        self.delete_call(alive)
    }
}

impl<T> Bind for BufferObject<T> {
    closed spec fn id_spec(&self) -> u32 {
        self.tracker_id.spec_id()
    }

    open spec fn bind_call_spec(&self) -> DriverCall {
        DriverCall::BindBuffer { target: self.spec_target(), name: self.spec_name() }
    }

    fn get_id(&self) -> (r: TrackerId)
        ensures
            r.spec_id() == self.id_spec(),
    {
        self.tracker_id
    }

    fn bind_call(&self) -> (c: DriverCall)
        ensures
            c == self.bind_call_spec(),
    {
        DriverCall::BindBuffer { target: self.target, name: self.id }
    }
}

} // verus!
