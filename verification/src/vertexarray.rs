//! Vertex arrays: the driver-side objects that capture the vertex
//! attribute layout and the index-buffer binding.
//!
//! The heart of this module is the single-buffer layout builder: from a
//! compact list of (component count, scalar type, normalize flag) fields it
//! derives the byte offset of every attribute and the common stride of the
//! interleaved record, byte-exactly.

use vstd::prelude::*;

use crate::buffer::indexbuffer::IndexBuffer;
use crate::context::same_render_targets;
use crate::context::Context;
use crate::context::RegistrationHandle;
use crate::driver::DriverCall;
use crate::handle::HandleAccess;
use crate::tracker::Bind;
use crate::tracker::TrackerId;
use crate::IndexBufferHandle;
use crate::VertexBufferHandle;

verus! {

/// The scalar type of a single vertex attribute component.
#[derive(Debug, Clone, Copy, PartialEq, Eq, Structural)]
pub enum VertexAttributeType {
    Byte,
    UnsignedByte,
    Short,
    UnsignedShort,
    Int,
    UnsignedInt,
    HalfFloat,
    Float,
    Double,
    Int2101010Rev,
    UnsignedInt2101010Rev,
}

/// The byte size of one component of the given scalar type.
pub open spec fn spec_attribute_size(attribute_type: VertexAttributeType) -> u32 {
    match attribute_type {
        VertexAttributeType::Byte => 1,
        VertexAttributeType::UnsignedByte => 1,
        VertexAttributeType::Short => 2,
        VertexAttributeType::UnsignedShort => 2,
        VertexAttributeType::Int => 4,
        VertexAttributeType::UnsignedInt => 4,
        VertexAttributeType::HalfFloat => 2,
        VertexAttributeType::Float => 4,
        VertexAttributeType::Double => 8,
        VertexAttributeType::Int2101010Rev => 4,
        VertexAttributeType::UnsignedInt2101010Rev => 4,
    }
}

fn attribute_to_size(attribute_type: VertexAttributeType) -> (r: u32)
    ensures
        r == spec_attribute_size(attribute_type),
{
    match attribute_type {
        VertexAttributeType::Byte => 1,
        VertexAttributeType::UnsignedByte => 1,
        VertexAttributeType::Short => 2,
        VertexAttributeType::UnsignedShort => 2,
        VertexAttributeType::Int => 4,
        VertexAttributeType::UnsignedInt => 4,
        VertexAttributeType::HalfFloat => 2,
        VertexAttributeType::Float => 4,
        VertexAttributeType::Double => 8,
        VertexAttributeType::Int2101010Rev => 4,
        VertexAttributeType::UnsignedInt2101010Rev => 4,
    }
}

/// One interleaved field of a single-buffer vertex layout, as handed to
/// the layout builder: component count, scalar type, normalize flag.
pub type LayoutField = (u8, VertexAttributeType, bool);

/// How many bytes one field occupies in the interleaved record.
pub open spec fn spec_field_bytes(field: LayoutField) -> int {
    field.0 * spec_attribute_size(field.1)
}

/// The byte offset of field `i` when the fields are packed in declaration
/// order with no padding: the running sum of the earlier fields' sizes.
pub open spec fn spec_packed_offset(fields: Seq<LayoutField>, i: int) -> int
    decreases i,
{
    if i <= 0 {
        0
    } else {
        spec_packed_offset(fields, i - 1) + spec_field_bytes(fields[i - 1])
    }
}

/// Field sizes are nonnegative, so packed offsets never decrease.
pub proof fn lemma_packed_offset_monotonic(fields: Seq<LayoutField>, i: int, j: int)
    requires
        0 <= i <= j <= fields.len(),
    ensures
        spec_packed_offset(fields, i) <= spec_packed_offset(fields, j),
    decreases j,
{
    if i < j {
        lemma_packed_offset_monotonic(fields, i, j - 1);
        assert(spec_field_bytes(fields[j - 1]) >= 0) by (nonlinear_arith);
    }
}

/// Describes one attribute of a vertex array; the byte layout fields say
/// where the attribute lives inside its vertex buffer.
pub struct VertexAttribute {
    /// The attribute index in the shader interface.
    pub index: u32,
    /// Component count, 1 through 4 in the driver's terms.
    pub size: u8,
    /// Scalar type of each component.
    pub attribute_type: VertexAttributeType,
    /// Whether fixed-point values are normalized when read.
    pub normalized: bool,
    /// Distance in bytes between consecutive records.
    pub stride: u32,
    /// Offset in bytes of this attribute inside a record.
    pub offset: u32,
    /// The buffer the attribute reads from.  The driver takes the buffer
    /// bound at description time to be part of vertex-array state; here it
    /// is explicit.
    pub vertex_buffer: VertexBufferHandle,
}

impl Clone for VertexAttribute {
    /// Cloning copies the layout fields and shares the buffer handle.
    fn clone(&self) -> (r: Self)
        ensures
            r == *self,
    {
        VertexAttribute {
            index: self.index,
            size: self.size,
            attribute_type: self.attribute_type,
            normalized: self.normalized,
            stride: self.stride,
            offset: self.offset,
            vertex_buffer: self.vertex_buffer.clone(),
        }
    }
}

/// Compute the packed single-buffer layout for the given fields, all read
/// from `vertex_buffer`.
///
/// Attribute `i` gets index `i` and its offset is the sum of the byte
/// sizes of the fields before it; every attribute reports the same stride,
/// the full interleaved record size.  A single-field layout therefore has
/// offset `0` and stride equal to that field's size.
pub fn build_single_buffer_layout(
    fields: &[LayoutField],
    vertex_buffer: &VertexBufferHandle,
) -> (r: Vec<VertexAttribute>)
    requires
        fields@.len() <= u32::MAX,
        spec_packed_offset(fields@, fields@.len() as int) <= u32::MAX,
    ensures
        r@.len() == fields@.len(),
        forall|i: int|
            0 <= i < fields@.len() ==> {
                let a = #[trigger] r@[i];
                &&& a.index == i
                &&& a.size == fields@[i].0
                &&& a.attribute_type == fields@[i].1
                &&& a.normalized == fields@[i].2
                &&& a.offset == spec_packed_offset(fields@, i)
                &&& a.stride == spec_packed_offset(fields@, fields@.len() as int)
                &&& a.vertex_buffer.res() == vertex_buffer.res()
            },
{
    let ghost all = fields@;
    let mut total: u32 = 0;
    let mut i: usize = 0;
    while i < fields.len()
        invariant
            0 <= i <= all.len(),
            all == fields@,
            all.len() <= u32::MAX,
            spec_packed_offset(all, all.len() as int) <= u32::MAX,
            total == spec_packed_offset(all, i as int),
        decreases all.len() - i,
    {
        let (size, attribute_type, _normalized) = fields[i];
        let component = attribute_to_size(attribute_type);
        proof {
            lemma_packed_offset_monotonic(all, i + 1, all.len() as int);
            assert(size * component == spec_field_bytes(all[i as int])) by (nonlinear_arith)
                requires
                    size == all[i as int].0 && component == spec_attribute_size(all[i as int].1),
            ;
            assert(size as u32 * component <= 255 * 8) by (nonlinear_arith)
                requires
                    size <= 255 && component <= 8,
            ;
        }
        total = total + (size as u32) * component;
        i = i + 1;
    }
    let stride = total;
    let mut attributes: Vec<VertexAttribute> = Vec::new();
    let mut offset: u32 = 0;
    let mut counter: u32 = 0;
    let mut j: usize = 0;
    while j < fields.len()
        invariant
            0 <= j <= all.len(),
            all == fields@,
            all.len() <= u32::MAX,
            spec_packed_offset(all, all.len() as int) <= u32::MAX,
            stride == spec_packed_offset(all, all.len() as int),
            offset == spec_packed_offset(all, j as int),
            counter == j,
            attributes@.len() == j,
            forall|k: int|
                0 <= k < j ==> {
                    let a = #[trigger] attributes@[k];
                    &&& a.index == k
                    &&& a.size == all[k].0
                    &&& a.attribute_type == all[k].1
                    &&& a.normalized == all[k].2
                    &&& a.offset == spec_packed_offset(all, k)
                    &&& a.stride == stride
                    &&& a.vertex_buffer.res() == vertex_buffer.res()
                },
        decreases all.len() - j,
    {
        let (size, attribute_type, normalized) = fields[j];
        let component = attribute_to_size(attribute_type);
        attributes.push(
            VertexAttribute {
                index: counter,
                size,
                attribute_type,
                normalized,
                stride,
                offset,
                vertex_buffer: vertex_buffer.clone(),
            },
        );
        proof {
            lemma_packed_offset_monotonic(all, j + 1, all.len() as int);
            assert(size * component == spec_field_bytes(all[j as int])) by (nonlinear_arith)
                requires
                    size == all[j as int].0 && component == spec_attribute_size(all[j as int].1),
            ;
            assert(size as u32 * component <= 255 * 8) by (nonlinear_arith)
                requires
                    size <= 255 && component <= 8,
            ;
        }
        offset = offset + (size as u32) * component;
        counter = counter + 1;
        j = j + 1;
    }
    attributes
}

/// The driver call that describes attribute `a` to the driver.
pub open spec fn spec_describe_call(a: VertexAttribute) -> DriverCall {
    DriverCall::DescribeVertexAttribute {
        index: a.index,
        size: a.size,
        attribute_type: a.attribute_type,
        normalized: a.normalized,
        stride: a.stride,
        offset: a.offset,
    }
}

/// The calls that describing one attribute appends, given which vertex
/// buffer was bound before: a bind of the attribute's source buffer
/// (elided when it is already bound), then enable and describe.
pub open spec fn spec_attribute_calls(a: VertexAttribute, vbo_bound: u32) -> Seq<DriverCall> {
    let buffer = a.vertex_buffer.res();
    let bind = if vbo_bound == buffer.id_spec() {
        Seq::<DriverCall>::empty()
    } else {
        seq![buffer.bind_call_spec()]
    };
    bind + seq![DriverCall::EnableVertexAttribute { index: a.index }, spec_describe_call(a)]
}

/// Which vertex buffer is bound after describing all of `attrs`, given
/// which one was bound before.
pub open spec fn spec_setup_final_bound(attrs: Seq<VertexAttribute>, vbo_bound: u32) -> u32 {
    if attrs.len() == 0 {
        vbo_bound
    } else {
        attrs.last().vertex_buffer.res().id_spec()
    }
}

/// The calls that describing all of `attrs` in order appends, given which
/// vertex buffer was bound before.
pub open spec fn spec_setup_calls(attrs: Seq<VertexAttribute>, vbo_bound: u32) -> Seq<DriverCall>
    decreases attrs.len(),
{
    if attrs.len() == 0 {
        Seq::<DriverCall>::empty()
    } else {
        spec_attribute_calls(attrs[0], vbo_bound) + spec_setup_calls(
            attrs.skip(1),
            attrs[0].vertex_buffer.res().id_spec(),
        )
    }
}

/// Unrolling [`spec_setup_calls`] from the back: the calls for `attrs`
/// are the calls for all but the last attribute, then the last
/// attribute's own calls against the buffer bound at that point.
pub proof fn lemma_setup_calls_unsnoc(attrs: Seq<VertexAttribute>, vbo_bound: u32)
    requires
        attrs.len() > 0,
    ensures
        spec_setup_calls(attrs, vbo_bound) == spec_setup_calls(attrs.drop_last(), vbo_bound)
            + spec_attribute_calls(
            attrs.last(),
            spec_setup_final_bound(attrs.drop_last(), vbo_bound),
        ),
    decreases attrs.len(),
{
    if attrs.len() == 1 {
        let head = spec_attribute_calls(attrs[0], vbo_bound);
        let after_first = attrs[0].vertex_buffer.res().id_spec();
        assert(attrs.drop_last() =~= Seq::<VertexAttribute>::empty());
        assert(attrs.skip(1) =~= Seq::<VertexAttribute>::empty());
        assert(attrs.last() == attrs[0]);
        assert(spec_setup_calls(attrs, vbo_bound) == head + spec_setup_calls(
            attrs.skip(1),
            after_first,
        ));
        assert(spec_setup_calls(Seq::<VertexAttribute>::empty(), after_first)
            == Seq::<DriverCall>::empty());
        assert(spec_setup_calls(Seq::<VertexAttribute>::empty(), vbo_bound)
            == Seq::<DriverCall>::empty());
        assert(spec_setup_final_bound(attrs.drop_last(), vbo_bound) == vbo_bound);
        assert(head + Seq::<DriverCall>::empty() =~= Seq::<DriverCall>::empty() + head);
        assert(spec_setup_calls(attrs, vbo_bound) =~= spec_setup_calls(attrs.drop_last(), vbo_bound)
            + spec_attribute_calls(
            attrs.last(),
            spec_setup_final_bound(attrs.drop_last(), vbo_bound),
        ));
    } else {
        let tail = attrs.skip(1);
        let after_first = attrs[0].vertex_buffer.res().id_spec();
        let head = spec_attribute_calls(attrs[0], vbo_bound);
        let shorter = attrs.drop_last();
        lemma_setup_calls_unsnoc(tail, after_first);
        assert(tail.drop_last() =~= shorter.skip(1));
        assert(tail.last() == attrs.last());
        assert(shorter[0] == attrs[0]);
        assert(shorter.last() == shorter[shorter.len() - 1]);
        assert(spec_setup_final_bound(tail.drop_last(), after_first) == spec_setup_final_bound(
            shorter,
            vbo_bound,
        ));
        let last_part = spec_attribute_calls(
            attrs.last(),
            spec_setup_final_bound(shorter, vbo_bound),
        );
        assert(spec_setup_calls(attrs, vbo_bound) == head + spec_setup_calls(tail, after_first));
        assert(spec_setup_calls(tail, after_first) == spec_setup_calls(tail.drop_last(), after_first)
            + last_part);
        assert(spec_setup_calls(shorter, vbo_bound) == spec_attribute_calls(shorter[0], vbo_bound)
            + spec_setup_calls(shorter.skip(1), shorter[0].vertex_buffer.res().id_spec()));
        assert(spec_setup_calls(shorter, vbo_bound) =~= head + spec_setup_calls(
            tail.drop_last(),
            after_first,
        ));
        assert(spec_setup_calls(attrs, vbo_bound) =~= spec_setup_calls(shorter, vbo_bound)
            + last_part);
    }
}

/// A driver-side vertex array object: an immutable bundle of attribute
/// descriptions and an optional index-buffer binding.
pub struct VertexArray {
    /// The driver-assigned object name.
    pub id: u32,
    tracker_id: TrackerId,
    registration: RegistrationHandle,
    vertex_attributes: Vec<VertexAttribute>,
    index_buffer: Option<IndexBufferHandle>,
}

impl VertexArray {
    /// The driver-assigned object name, for specifications.
    pub closed spec fn spec_name(&self) -> u32 {
        self.id
    }

    /// The attribute descriptions this vertex array was built from.
    pub closed spec fn spec_attributes(&self) -> Seq<VertexAttribute> {
        self.vertex_attributes@
    }

    /// The attached index buffer, if one was given at construction.
    pub closed spec fn spec_index_buffer(&self) -> Option<IndexBuffer> {
        match self.index_buffer {
            Some(handle) => Some(handle.res()),
            None => None,
        }
    }

    /// Create a vertex array against the driver object named `name`.
    ///
    /// The vertex array is bound for editing; every attribute's source
    /// buffer is then bound (redundant binds elided by the tracker) and
    /// the attribute described to the driver; finally, if an index buffer
    /// is given, its binding is recorded — the driver captures the
    /// element-index binding as part of vertex-array state.
    ///
    /// The created vertex array is immutable: the attributes cannot be
    /// changed afterwards.
    pub fn new(
        ctx: &mut Context,
        tracker_id: TrackerId,
        name: u32,
        attributes: &[VertexAttribute],
        index_buffer: Option<IndexBufferHandle>,
        registration: RegistrationHandle,
    ) -> (r: VertexArray)
        ensures
            r.spec_name() == name,
            r.id_spec() == tracker_id.spec_id(),
            r.spec_attributes() == attributes@,
            (match index_buffer {
                Some(handle) => r.spec_index_buffer() == Some(handle.res()),
                None => r.spec_index_buffer() is None,
            }),
            final(ctx).spec_vao_bound() == tracker_id.spec_id(),
            final(ctx).spec_vbo_bound() == spec_setup_final_bound(
                attributes@,
                old(ctx).spec_vbo_bound(),
            ),
            final(ctx).spec_calls() == old(ctx).spec_calls() + (if old(ctx).spec_vao_bound()
                == tracker_id.spec_id() {
                Seq::<DriverCall>::empty()
            } else {
                seq![DriverCall::BindVertexArray { name: name }]
            }) + spec_setup_calls(attributes@, old(ctx).spec_vbo_bound()) + (match index_buffer {
                Some(handle) => seq![handle.res().bind_call_spec()],
                None => Seq::<DriverCall>::empty(),
            }),
            final(ctx).spec_ubo_bound() == old(ctx).spec_ubo_bound(),
            final(ctx).spec_program_bound() == old(ctx).spec_program_bound(),
            same_render_targets(*old(ctx), *final(ctx)),
            final(ctx).spec_counter() == old(ctx).spec_counter(),
            final(ctx).spec_info() == old(ctx).spec_info(),
    {
        let ghost first_bound = old(ctx).spec_vbo_bound();
        let mut owned: Vec<VertexAttribute> = Vec::new();
        let mut i: usize = 0;
        while i < attributes.len()
            invariant
                i <= attributes@.len(),
                owned@.len() == i,
                forall|k: int| 0 <= k < i ==> owned@[k] == attributes@[k],
                *ctx == *old(ctx),
            decreases attributes@.len() - i,
        {
            owned.push(attributes[i].clone());
            i = i + 1;
        }
        proof {
            assert(owned@ =~= attributes@);
        }
        let vertex_array = VertexArray {
            id: name,
            tracker_id,
            registration,
            vertex_attributes: owned,
            index_buffer,
        };
        ctx.bind_vao_for_editing(&vertex_array);
        let ghost vao_part = if old(ctx).spec_vao_bound() == tracker_id.spec_id() {
            Seq::<DriverCall>::empty()
        } else {
            seq![DriverCall::BindVertexArray { name: name }]
        };
        proof {
            assert(ctx.spec_calls() =~= old(ctx).spec_calls() + vao_part + spec_setup_calls(
                attributes@.take(0),
                first_bound,
            ));
        }
        let mut j: usize = 0;
        while j < attributes.len()
            invariant
                j <= attributes@.len(),
                ctx.spec_calls() =~= old(ctx).spec_calls() + vao_part + spec_setup_calls(
                    attributes@.take(j as int),
                    first_bound,
                ),
                ctx.spec_vbo_bound() == spec_setup_final_bound(
                    attributes@.take(j as int),
                    first_bound,
                ),
                ctx.spec_vao_bound() == tracker_id.spec_id(),
                ctx.spec_ubo_bound() == old(ctx).spec_ubo_bound(),
                ctx.spec_program_bound() == old(ctx).spec_program_bound(),
                same_render_targets(*old(ctx), *ctx),
                ctx.spec_counter() == old(ctx).spec_counter(),
                ctx.spec_info() == old(ctx).spec_info(),
            decreases attributes@.len() - j,
        {
            Self::set_vertex_attribute(ctx, &attributes[j]);
            proof {
                let done = attributes@.take(j + 1);
                lemma_setup_calls_unsnoc(done, first_bound);
                assert(done.drop_last() =~= attributes@.take(j as int));
                assert(done.last() == attributes@[j as int]);
                assert(ctx.spec_calls() =~= old(ctx).spec_calls() + vao_part + spec_setup_calls(
                    done,
                    first_bound,
                ));
            }
            j = j + 1;
        }
        proof {
            assert(attributes@.take(attributes@.len() as int) =~= attributes@);
        }
        match &vertex_array.index_buffer {
            Some(handle) => {
                let call = handle.access().bind_call();
                ctx.record(call);
            },
            None => {},
        }
        proof {
            assert(ctx.spec_calls() =~= old(ctx).spec_calls() + vao_part + spec_setup_calls(
                attributes@,
                first_bound,
            ) + (match index_buffer {
                Some(handle) => seq![handle.res().bind_call_spec()],
                None => Seq::<DriverCall>::empty(),
            }));
        }
        vertex_array
    }

    /// Create a vertex array whose attributes all read from one vertex
    /// buffer: the packed layout is computed by
    /// [`build_single_buffer_layout`], then the vertex array is set up as
    /// by [`VertexArray::new`].
    pub fn new_single_vbo(
        ctx: &mut Context,
        tracker_id: TrackerId,
        name: u32,
        attributes: &[LayoutField],
        vertex_buffer: VertexBufferHandle,
        index_buffer: Option<IndexBufferHandle>,
        registration: RegistrationHandle,
    ) -> (r: VertexArray)
        requires
            attributes@.len() <= u32::MAX,
            spec_packed_offset(attributes@, attributes@.len() as int) <= u32::MAX,
        ensures
            r.spec_name() == name,
            r.id_spec() == tracker_id.spec_id(),
            r.spec_attributes().len() == attributes@.len(),
            forall|i: int|
                0 <= i < attributes@.len() ==> {
                    let a = #[trigger] r.spec_attributes()[i];
                    &&& a.index == i
                    &&& a.size == attributes@[i].0
                    &&& a.attribute_type == attributes@[i].1
                    &&& a.normalized == attributes@[i].2
                    &&& a.offset == spec_packed_offset(attributes@, i)
                    &&& a.stride == spec_packed_offset(attributes@, attributes@.len() as int)
                    &&& a.vertex_buffer.res() == vertex_buffer.res()
                },
            (match index_buffer {
                Some(handle) => r.spec_index_buffer() == Some(handle.res()),
                None => r.spec_index_buffer() is None,
            }),
            final(ctx).spec_vao_bound() == tracker_id.spec_id(),
            final(ctx).spec_vbo_bound() == spec_setup_final_bound(
                r.spec_attributes(),
                old(ctx).spec_vbo_bound(),
            ),
            final(ctx).spec_calls() == old(ctx).spec_calls() + (if old(ctx).spec_vao_bound()
                == tracker_id.spec_id() {
                Seq::<DriverCall>::empty()
            } else {
                seq![DriverCall::BindVertexArray { name: name }]
            }) + spec_setup_calls(r.spec_attributes(), old(ctx).spec_vbo_bound()) + (
            match index_buffer {
                Some(handle) => seq![handle.res().bind_call_spec()],
                None => Seq::<DriverCall>::empty(),
            }),
            final(ctx).spec_ubo_bound() == old(ctx).spec_ubo_bound(),
            final(ctx).spec_program_bound() == old(ctx).spec_program_bound(),
            same_render_targets(*old(ctx), *final(ctx)),
            final(ctx).spec_counter() == old(ctx).spec_counter(),
            final(ctx).spec_info() == old(ctx).spec_info(),
    {
        let full_attributes = build_single_buffer_layout(attributes, &vertex_buffer);
        VertexArray::new(ctx, tracker_id, name, full_attributes.as_slice(), index_buffer, registration)
    }

    /// Bind one attribute's source buffer for editing (the tracker elides
    /// a redundant bind) and describe the attribute to the driver.
    fn set_vertex_attribute(ctx: &mut Context, attribute: &VertexAttribute)
        ensures
            final(ctx).spec_calls() == old(ctx).spec_calls() + spec_attribute_calls(
                *attribute,
                old(ctx).spec_vbo_bound(),
            ),
            final(ctx).spec_vbo_bound() == attribute.vertex_buffer.res().id_spec(),
            final(ctx).spec_vao_bound() == old(ctx).spec_vao_bound(),
            final(ctx).spec_ubo_bound() == old(ctx).spec_ubo_bound(),
            final(ctx).spec_program_bound() == old(ctx).spec_program_bound(),
            same_render_targets(*old(ctx), *final(ctx)),
            final(ctx).spec_counter() == old(ctx).spec_counter(),
            final(ctx).spec_info() == old(ctx).spec_info(),
    {
        ctx.bind_vbo_for_editing(attribute.vertex_buffer.access());
        ctx.record(DriverCall::EnableVertexAttribute { index: attribute.index });
        ctx.record(
            DriverCall::DescribeVertexAttribute {
                index: attribute.index,
                size: attribute.size,
                attribute_type: attribute.attribute_type,
                normalized: attribute.normalized,
                stride: attribute.stride,
                offset: attribute.offset,
            },
        );
        proof {
            assert(ctx.spec_calls() =~= old(ctx).spec_calls() + spec_attribute_calls(
                *attribute,
                old(ctx).spec_vbo_bound(),
            ));
        }
    }

    /// What is the index buffer bound to the vertex array, if any.
    pub fn index_buffer(&self) -> (r: Option<&IndexBuffer>)
        ensures
            match r {
                Some(buffer) => self.spec_index_buffer() == Some(*buffer),
                None => self.spec_index_buffer() is None,
            },
    {
        match &self.index_buffer {
            Some(handle) => Some(handle.access()),
            None => None,
        }
    }

    /// The teardown call this vertex array owes the driver, gated on the
    /// owning context being alive.
    pub fn delete_call(&self, context_alive: bool) -> (r: Option<DriverCall>)
        ensures
            context_alive ==> r == Some(DriverCall::DeleteVertexArray { name: self.spec_name() }),
            !context_alive ==> r is None,
    {
        if context_alive {
            Some(DriverCall::DeleteVertexArray { name: self.id })
        } else {
            None
        }
    }

    /// Give the vertex array up, together with its references to the
    /// buffers it was built from.  Returns the delete calls to issue: the
    /// array's own, and one for every referenced buffer this vertex array
    /// was the last owner of.  While the owning context is dead, no call
    /// at all is issued.
    pub fn release(self) -> (r: Vec<DriverCall>)
        ensures
            forall|i: int| 0 <= i < r@.len() ==> (#[trigger] r@[i]).is_delete(),
    {
        let VertexArray { id, tracker_id: _, registration, mut vertex_attributes, index_buffer } =
            self;
        let alive = registration.context_alive();
        let mut calls: Vec<DriverCall> = Vec::new();
        if alive {
            calls.push(DriverCall::DeleteVertexArray { name: id });
        }
        while vertex_attributes.len() > 0
            invariant
                forall|i: int| 0 <= i < calls@.len() ==> (#[trigger] calls@[i]).is_delete(),
            decreases vertex_attributes.len(),
        {
            let attribute = vertex_attributes.pop().unwrap();
            if let Some(buffer) = attribute.vertex_buffer.into_resource() {
                if let Some(call) = buffer.release() {
                    calls.push(call);
                }
            }
        }
        if let Some(handle) = index_buffer {
            if let Some(buffer) = handle.into_resource() {
                if let Some(call) = buffer.release() {
                    calls.push(call);
                }
            }
        }
        calls
    }
}

impl Bind for VertexArray {
    closed spec fn id_spec(&self) -> u32 {
        self.tracker_id.spec_id()
    }

    open spec fn bind_call_spec(&self) -> DriverCall {
        DriverCall::BindVertexArray { name: self.spec_name() }
    }

    fn get_id(&self) -> (r: TrackerId)
        ensures
            r.spec_id() == self.id_spec(),
    {
        self.tracker_id
    }

    fn bind_call(&self) -> (c: DriverCall)
        ensures
            c == self.bind_call_spec(),
    {
        DriverCall::BindVertexArray { name: self.id }
    }
}

} // verus!
