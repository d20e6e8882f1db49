//! Shader programs: linking, introspection and uniform-value setting.

use vstd::prelude::*;

use crate::context::same_bindings;
use crate::context::same_render_targets;
use crate::context::Context;
use crate::context::RegistrationHandle;
use crate::driver::DriverCall;
use crate::handle::HandleAccess;
use crate::shader::Shader;
use crate::tracker::bind_step;
use crate::tracker::Bind;
use crate::tracker::TrackerId;
use crate::ProgramHandle;
use crate::ShaderHandle;

use self::attribute::make_attribute_info_vec;
use self::attribute::GlAttribute;
use self::attribute::ShaderAttributeInfo;
use self::uniform::make_uniform_info;
use self::uniform::GlUniform;
use self::uniform::InterfaceBlock;
use self::uniform::SimpleUniformTypeFloat;
use self::uniform::SimpleUniformTypeI32;
use self::uniform::SimpleUniformTypeMatrix;
use self::uniform::SimpleUniformTypeU32;
use self::uniform::UniformInfo;
use self::uniform::UniformValueError;

pub mod attribute;
pub mod uniform;

verus! {

/// The attach calls a program issues while linking: one per shader, in
/// the order the shaders were given.
pub open spec fn spec_attach_calls(program: u32, shaders: Seq<Shader>) -> Seq<DriverCall> {
    Seq::new(shaders.len(), |i: int| DriverCall::AttachShader {
        program: program,
        shader: shaders[i].spec_name(),
    })
}

/// A shader program, formed by linking shader objects together.
///
/// The program keeps strong references to its shaders for its whole
/// lifetime, so a shader is never deleted out from under a program that
/// might be relinked.
pub struct Program {
    id: u32,
    tracker_id: TrackerId,
    registration: RegistrationHandle,
    shaders: Vec<ShaderHandle>,
}

impl Program {
    /// The driver-assigned object name, for specifications.
    pub closed spec fn spec_name(&self) -> u32 {
        self.id
    }

    /// The shaders this program was linked from.
    pub closed spec fn spec_shaders(&self) -> Seq<Shader> {
        Seq::new(self.shaders@.len(), |i: int| self.shaders@[i].res())
    }

    /// Wrap the driver program object `name`, attach every shader in the
    /// list to it and link it.
    ///
    /// Link status and diagnostics are reported as data, queried from the
    /// driver afterwards; the record here only attaches and links.
    pub fn new(
        tracker_id: TrackerId,
        shaders: &[ShaderHandle],
        name: u32,
        registration: RegistrationHandle,
        log: &mut Vec<DriverCall>,
    ) -> (r: Program)
        ensures
            r.spec_name() == name,
            r.id_spec() == tracker_id.spec_id(),
            r.spec_shaders() == Seq::new(shaders@.len(), |i: int| shaders@[i].res()),
            final(log)@ == old(log)@ + spec_attach_calls(
                name,
                Seq::new(shaders@.len(), |i: int| shaders@[i].res()),
            ).push(DriverCall::LinkProgram { program: name }),
    {
        let ghost given = Seq::new(shaders@.len(), |i: int| shaders@[i].res());
        let mut owned: Vec<ShaderHandle> = Vec::new();
        let mut i: usize = 0;
        while i < shaders.len()
            invariant
                0 <= i <= shaders@.len(),
                owned@.len() == i,
                given == Seq::new(shaders@.len(), |k: int| shaders@[k].res()),
                forall|k: int| 0 <= k < i ==> (#[trigger] owned@[k]).res() == shaders@[k].res(),
                log@ =~= old(log)@ + spec_attach_calls(name, given).take(i as int),
            decreases shaders@.len() - i,
        {
            let handle = &shaders[i];
            log.push(DriverCall::AttachShader { program: name, shader: handle.access().get_id() });
            owned.push(handle.clone());
            proof {
                assert(spec_attach_calls(name, given).take(i + 1) == spec_attach_calls(
                    name,
                    given,
                ).take(i as int).push(spec_attach_calls(name, given)[i as int]));
            }
            i = i + 1;
        }
        proof {
            assert(spec_attach_calls(name, given).take(given.len() as int) == spec_attach_calls(
                name,
                given,
            ));
        }
        log.push(DriverCall::LinkProgram { program: name });
        let program = Program { id: name, tracker_id, registration, shaders: owned };
        proof {
            assert(program.spec_shaders() =~= given);
        }
        program
    }

    /// The teardown call this program owes the driver, gated on the owning
    /// context being alive.
    pub fn delete_call(&self, context_alive: bool) -> (r: Option<DriverCall>)
        ensures
            context_alive ==> r == Some(DriverCall::DeleteProgram { name: self.spec_name() }),
            !context_alive ==> r is None,
    {
        if context_alive {
            Some(DriverCall::DeleteProgram { name: self.id })
        } else {
            None
        }
    }

    /// Give the program up, together with its references to its shaders.
    /// Returns the delete calls to issue: the program's own, and one for
    /// every shader this program was the last owner of.  While the owning
    /// context is dead, no call at all is issued.
    pub fn release(self) -> (r: Vec<DriverCall>)
        ensures
            forall|i: int| 0 <= i < r@.len() ==> (#[trigger] r@[i]).is_delete(),
    {
        let Program { id, tracker_id: _, registration, mut shaders } = self;
        let alive = registration.context_alive();
        let mut calls: Vec<DriverCall> = Vec::new();
        if alive {
            calls.push(DriverCall::DeleteProgram { name: id });
        }
        while shaders.len() > 0
            invariant
                forall|i: int| 0 <= i < calls@.len() ==> (#[trigger] calls@[i]).is_delete(),
            decreases shaders.len(),
        {
            let handle = shaders.pop().unwrap();
            if let Some(shader) = handle.into_resource() {
                if let Some(call) = shader.release() {
                    calls.push(call);
                }
            }
        }
        calls
    }
}

/// One queried fragment-data binding of a program: the location and
/// index that the driver reports for a named fragment shader output.
pub struct FragDataEntry {
    /// The output's name.
    pub name: String,
    /// The reported fragment-data location.
    pub location: i32,
    /// The reported fragment-data index.
    pub index: i32,
}

impl Clone for FragDataEntry {
    /// Cloning copies every field.
    fn clone(&self) -> (r: Self)
        ensures
            r == *self,
    {
        FragDataEntry {
            name: self.name.clone(),
            location: self.location,
            index: self.index,
        }
    }
}

/// Some raw uniform record carries this name, and `i` is the first
/// position that does.
pub open spec fn spec_first_gl_uniform_at(us: Seq<GlUniform>, name: Seq<char>, i: int) -> bool {
    &&& 0 <= i < us.len()
    &&& us[i].name@ == name
    &&& forall|k: int| 0 <= k < i ==> us[k].name@ != name
}

/// Some raw attribute record carries this name, and `i` is the first
/// position that does.
pub open spec fn spec_first_gl_attribute_at(attrs: Seq<GlAttribute>, name: Seq<char>, i: int) -> bool {
    &&& 0 <= i < attrs.len()
    &&& attrs[i].name@ == name
    &&& forall|k: int| 0 <= k < i ==> attrs[k].name@ != name
}

/// Some fragment-data entry carries this name, and `i` is the first
/// position that does.
pub open spec fn spec_first_frag_data_at(entries: Seq<FragDataEntry>, name: Seq<char>, i: int) -> bool {
    &&& 0 <= i < entries.len()
    &&& entries[i].name@ == name
    &&& forall|k: int| 0 <= k < i ==> entries[k].name@ != name
}

/// A reflection snapshot of a linked program, rebuilt on demand by the
/// embedding program from the driver's introspection queries, and
/// queried here without further driver traffic.
///
/// Lookups by a name the snapshot does not contain answer `-1`, the
/// value the driver itself reports for unknown names.
pub struct ProgramInfoAccessor {
    link_status: bool,
    info_log: String,
    gl_uniforms: Vec<GlUniform>,
    blocks: Vec<InterfaceBlock>,
    attributes: Vec<GlAttribute>,
    frag_data: Vec<FragDataEntry>,
}

impl ProgramInfoAccessor {
    /// The reported link status, for specifications.
    pub closed spec fn spec_link_status(&self) -> bool {
        self.link_status
    }

    /// The reported link log, for specifications.
    pub closed spec fn spec_info_log(&self) -> Seq<char> {
        self.info_log@
    }

    /// The raw uniform records of the snapshot.
    pub closed spec fn spec_gl_uniforms(&self) -> Seq<GlUniform> {
        self.gl_uniforms@
    }

    /// The raw block descriptions of the snapshot.
    pub closed spec fn spec_blocks(&self) -> Seq<InterfaceBlock> {
        self.blocks@
    }

    /// The raw attribute records of the snapshot.
    pub closed spec fn spec_attributes(&self) -> Seq<GlAttribute> {
        self.attributes@
    }

    /// The fragment-data entries of the snapshot.
    pub closed spec fn spec_frag_data(&self) -> Seq<FragDataEntry> {
        self.frag_data@
    }

    /// The snapshot is consistent: every reported block index refers to
    /// one of its block descriptions.
    pub open spec fn wf(&self) -> bool {
        &&& self.spec_blocks().len() <= i32::MAX
        &&& forall|i: int|
            0 <= i < self.spec_gl_uniforms().len() ==> (
            #[trigger] self.spec_gl_uniforms()[i].block_index) < self.spec_blocks().len()
    }

    /// The location of the named attribute, `-1` when no active
    /// attribute carries the name.
    pub fn get_attribute_location(&self, name: &str) -> (r: i32)
        ensures
            (exists|i: int| spec_first_gl_attribute_at(self.spec_attributes(), name@, i)) ==> (
            exists|i: int|
                spec_first_gl_attribute_at(self.spec_attributes(), name@, i) && r
                    == self.spec_attributes()[i].location),
            (forall|i: int|
                0 <= i < self.spec_attributes().len() ==> self.spec_attributes()[i].name@ != name@)
                ==> r == -1,
    {
        let wanted = name.to_owned();
        let mut i: usize = 0;
        while i < self.attributes.len()
            invariant
                i <= self.attributes@.len(),
                wanted@ == name@,
                forall|k: int| 0 <= k < i ==> self.attributes@[k].name@ != name@,
            decreases self.attributes@.len() - i,
        {
            if self.attributes[i].name == wanted {
                proof {
                    assert(spec_first_gl_attribute_at(self.spec_attributes(), name@, i as int));
                }
                return self.attributes[i].location;
            }
            i = i + 1;
        }
        -1
    }

    /// The location of the named uniform, `-1` when no active uniform
    /// carries the name.
    pub fn get_uniform_location(&self, name: &str) -> (r: i32)
        ensures
            (exists|i: int| spec_first_gl_uniform_at(self.spec_gl_uniforms(), name@, i)) ==> (
            exists|i: int|
                spec_first_gl_uniform_at(self.spec_gl_uniforms(), name@, i) && r
                    == self.spec_gl_uniforms()[i].location),
            (forall|i: int|
                0 <= i < self.spec_gl_uniforms().len() ==> self.spec_gl_uniforms()[i].name@
                    != name@) ==> r == -1,
    {
        let wanted = name.to_owned();
        let mut i: usize = 0;
        while i < self.gl_uniforms.len()
            invariant
                i <= self.gl_uniforms@.len(),
                wanted@ == name@,
                forall|k: int| 0 <= k < i ==> self.gl_uniforms@[k].name@ != name@,
            decreases self.gl_uniforms@.len() - i,
        {
            if self.gl_uniforms[i].name == wanted {
                proof {
                    assert(spec_first_gl_uniform_at(self.spec_gl_uniforms(), name@, i as int));
                }
                return self.gl_uniforms[i].location;
            }
            i = i + 1;
        }
        -1
    }

    /// Build the structured uniform report from the snapshot: globals
    /// and blocks, partitioned by the reported block index as
    /// [`make_uniform_info`] describes.
    pub fn get_uniform_info(&self) -> (r: UniformInfo)
        requires
            self.wf(),
        ensures
            r.globals@ == crate::program::uniform::spec_globals(self.spec_gl_uniforms()),
            r.blocks@.len() == self.spec_blocks().len(),
            forall|j: int|
                0 <= j < self.spec_blocks().len() ==> {
                    let b = #[trigger] r.blocks@[j];
                    &&& b.name == self.spec_blocks()[j].name
                    &&& b.index == self.spec_blocks()[j].index
                    &&& b.data_size == self.spec_blocks()[j].data_size
                    &&& b.uniforms@ == self.spec_blocks()[j].uniforms@
                        + crate::program::uniform::spec_block_members(self.spec_gl_uniforms(), j)
                },
    {
        let mut uniforms: Vec<GlUniform> = Vec::new();
        let mut i: usize = 0;
        while i < self.gl_uniforms.len()
            invariant
                i <= self.gl_uniforms@.len(),
                uniforms@.len() == i,
                forall|k: int| 0 <= k < i ==> (#[trigger] uniforms@[k]) == self.gl_uniforms@[k],
            decreases self.gl_uniforms@.len() - i,
        {
            uniforms.push(self.gl_uniforms[i].clone());
            i = i + 1;
        }
        proof {
            assert(uniforms@ =~= self.gl_uniforms@);
        }
        let mut blocks: Vec<InterfaceBlock> = Vec::new();
        let mut j: usize = 0;
        while j < self.blocks.len()
            invariant
                j <= self.blocks@.len(),
                blocks@.len() == j,
                forall|k: int|
                    0 <= k < j ==> {
                        let b = #[trigger] blocks@[k];
                        &&& b.name == self.blocks@[k].name
                        &&& b.index == self.blocks@[k].index
                        &&& b.data_size == self.blocks@[k].data_size
                        &&& b.uniforms@ == self.blocks@[k].uniforms@
                    },
            decreases self.blocks@.len() - j,
        {
            blocks.push(self.blocks[j].clone());
            j = j + 1;
        }
        proof {
            assert(blocks@.len() == self.blocks@.len());
            assert forall|i: int|
                0 <= i < uniforms@.len() implies (#[trigger] uniforms@[i].block_index)
                < blocks@.len() by {
                assert(uniforms@[i] == self.spec_gl_uniforms()[i]);
                assert(self.spec_gl_uniforms()[i].block_index < self.spec_blocks().len());
            }
        }
        make_uniform_info(uniforms, blocks)
    }

    /// Build the structured attribute report from the snapshot.
    pub fn get_attribute_info(&self) -> (r: ShaderAttributeInfo)
        ensures
            r.attributes@.len() == self.spec_attributes().len(),
            forall|i: int|
                0 <= i < self.spec_attributes().len() ==> (#[trigger] r.attributes@[i]) == (
                crate::program::attribute::ShaderAttribute {
                    name: self.spec_attributes()[i].name,
                    location: self.spec_attributes()[i].location,
                    attribute_type: crate::program::attribute::spec_attribute_type_from_tag(
                        self.spec_attributes()[i].attribute_type,
                    ),
                    size: self.spec_attributes()[i].size,
                }),
    {
        let mut raw: Vec<GlAttribute> = Vec::new();
        let mut i: usize = 0;
        while i < self.attributes.len()
            invariant
                i <= self.attributes@.len(),
                raw@.len() == i,
                forall|k: int| 0 <= k < i ==> (#[trigger] raw@[k]) == self.attributes@[k],
            decreases self.attributes@.len() - i,
        {
            raw.push(self.attributes[i].clone());
            i = i + 1;
        }
        proof {
            assert(raw@ =~= self.attributes@);
        }
        make_attribute_info_vec(raw)
    }

    /// The fragment-data location of the named output, `-1` when the
    /// snapshot has no entry for the name.
    pub fn get_frag_data_location(&self, name: &str) -> (r: i32)
        ensures
            (exists|i: int| spec_first_frag_data_at(self.spec_frag_data(), name@, i)) ==> (
            exists|i: int|
                spec_first_frag_data_at(self.spec_frag_data(), name@, i) && r
                    == self.spec_frag_data()[i].location),
            (forall|i: int|
                0 <= i < self.spec_frag_data().len() ==> self.spec_frag_data()[i].name@ != name@)
                ==> r == -1,
    {
        let wanted = name.to_owned();
        let mut i: usize = 0;
        while i < self.frag_data.len()
            invariant
                i <= self.frag_data@.len(),
                wanted@ == name@,
                forall|k: int| 0 <= k < i ==> self.frag_data@[k].name@ != name@,
            decreases self.frag_data@.len() - i,
        {
            if self.frag_data[i].name == wanted {
                proof {
                    assert(spec_first_frag_data_at(self.spec_frag_data(), name@, i as int));
                }
                return self.frag_data[i].location;
            }
            i = i + 1;
        }
        -1
    }

    /// The fragment-data index of the named output, `-1` when the
    /// snapshot has no entry for the name.
    pub fn get_frag_data_index(&self, name: &str) -> (r: i32)
        ensures
            (exists|i: int| spec_first_frag_data_at(self.spec_frag_data(), name@, i)) ==> (
            exists|i: int|
                spec_first_frag_data_at(self.spec_frag_data(), name@, i) && r
                    == self.spec_frag_data()[i].index),
            (forall|i: int|
                0 <= i < self.spec_frag_data().len() ==> self.spec_frag_data()[i].name@ != name@)
                ==> r == -1,
    {
        let wanted = name.to_owned();
        let mut i: usize = 0;
        while i < self.frag_data.len()
            invariant
                i <= self.frag_data@.len(),
                wanted@ == name@,
                forall|k: int| 0 <= k < i ==> self.frag_data@[k].name@ != name@,
            decreases self.frag_data@.len() - i,
        {
            if self.frag_data[i].name == wanted {
                proof {
                    assert(spec_first_frag_data_at(self.spec_frag_data(), name@, i as int));
                }
                return self.frag_data[i].index;
            }
            i = i + 1;
        }
        -1
    }

    /// Was the program linked successfully?
    pub fn get_link_status(&self) -> (r: bool)
        ensures
            r == self.spec_link_status(),
    {
        self.link_status
    }

    /// The program info log; it may explain a failed link.
    pub fn get_info_log(&self) -> (r: String)
        ensures
            r@ == self.spec_info_log(),
    {
        self.info_log.clone()
    }
}

/// Bundle a queried reflection snapshot into an accessor.
pub fn new_program_info_accessor(
    link_status: bool,
    info_log: String,
    gl_uniforms: Vec<GlUniform>,
    blocks: Vec<InterfaceBlock>,
    attributes: Vec<GlAttribute>,
    frag_data: Vec<FragDataEntry>,
) -> (r: ProgramInfoAccessor)
    ensures
        r.spec_link_status() == link_status,
        r.spec_info_log() == info_log@,
        r.spec_gl_uniforms() == gl_uniforms@,
        r.spec_blocks() == blocks@,
        r.spec_attributes() == attributes@,
        r.spec_frag_data() == frag_data@,
{
    ProgramInfoAccessor { link_status, info_log, gl_uniforms, blocks, attributes, frag_data }
}

/// Edits one program: sets uniform values while the program is the one
/// in use.
///
/// The editor's operations demand — and the verifier checks — that the
/// edited program is still the bound one when a value is set: the
/// driver applies uniform-value calls to the program in use.
pub struct ProgramEditor {
    program: ProgramHandle,
}

impl ProgramEditor {
    /// The program being edited.
    pub closed spec fn spec_program(&self) -> Program {
        self.program.res()
    }

    /// Set float uniform values, given as IEEE 754 bit patterns.  The
    /// count and shape are validated against the supplied length before
    /// anything is recorded; on failure nothing is recorded and the
    /// error reports the shortfall.
    pub fn uniform_f32(
        &self,
        context: &mut Context,
        location: i32,
        count: usize,
        uniform_type: SimpleUniformTypeFloat,
        value_bits: &[u32],
    ) -> (r: Result<(), UniformValueError>)
        requires
            old(context).spec_program_bound() == self.spec_program().id_spec(),
        ensures
            r is Ok <==> count * uniform_type.spec_element_count() <= value_bits@.len(),
            r is Ok ==> final(context).spec_calls().len() == old(context).spec_calls().len() + 1
                && final(context).spec_calls().drop_last() == old(context).spec_calls()
                && crate::program::uniform::spec_is_uniform_f32(
                final(context).spec_calls().last(),
                location,
                count,
                uniform_type,
                value_bits@,
            ),
            r is Err ==> final(context).spec_calls() == old(context).spec_calls(),
            r matches Err(e) ==> e == (UniformValueError {
                count,
                element_count: uniform_type.spec_element_count(),
                provided_len: value_bits@.len() as usize,
            }),
            same_bindings(*old(context), *final(context)),
            final(context).spec_counter() == old(context).spec_counter(),
            final(context).spec_info() == old(context).spec_info(),
    {
        match crate::program::uniform::validate_uniform_f32(count, uniform_type, value_bits.len()) {
            Ok(()) => {
                context.record(
                    DriverCall::UniformF32 {
                        location,
                        count,
                        shape: uniform_type,
                        value_bits: vstd::slice::slice_to_vec(value_bits),
                    },
                );
                proof {
                    assert(context.spec_calls().drop_last() =~= old(context).spec_calls());
                }
                Ok(())
            },
            Err(error) => Err(error),
        }
    }

    /// Set matrix uniform values, given as IEEE 754 bit patterns, with
    /// the driver-side transpose flag.  Validation as in
    /// [`Self::uniform_f32`].
    pub fn uniform_matrix(
        &self,
        context: &mut Context,
        location: i32,
        count: usize,
        uniform_type: SimpleUniformTypeMatrix,
        transpose: bool,
        value_bits: &[u32],
    ) -> (r: Result<(), UniformValueError>)
        requires
            old(context).spec_program_bound() == self.spec_program().id_spec(),
        ensures
            r is Ok <==> count * uniform_type.spec_element_count() <= value_bits@.len(),
            r is Ok ==> final(context).spec_calls().len() == old(context).spec_calls().len() + 1
                && final(context).spec_calls().drop_last() == old(context).spec_calls()
                && crate::program::uniform::spec_is_uniform_matrix(
                final(context).spec_calls().last(),
                location,
                count,
                uniform_type,
                transpose,
                value_bits@,
            ),
            r is Err ==> final(context).spec_calls() == old(context).spec_calls(),
            r matches Err(e) ==> e == (UniformValueError {
                count,
                element_count: uniform_type.spec_element_count(),
                provided_len: value_bits@.len() as usize,
            }),
            same_bindings(*old(context), *final(context)),
            final(context).spec_counter() == old(context).spec_counter(),
            final(context).spec_info() == old(context).spec_info(),
    {
        match crate::program::uniform::validate_uniform_matrix(
            count,
            uniform_type,
            value_bits.len(),
        ) {
            Ok(()) => {
                context.record(
                    DriverCall::UniformMatrix {
                        location,
                        count,
                        shape: uniform_type,
                        transpose,
                        value_bits: vstd::slice::slice_to_vec(value_bits),
                    },
                );
                proof {
                    assert(context.spec_calls().drop_last() =~= old(context).spec_calls());
                }
                Ok(())
            },
            Err(error) => Err(error),
        }
    }

    /// Set `u32` uniform values.  Validation as in [`Self::uniform_f32`].
    pub fn uniform_u32(
        &self,
        context: &mut Context,
        location: i32,
        count: usize,
        uniform_type: SimpleUniformTypeU32,
        values: &[u32],
    ) -> (r: Result<(), UniformValueError>)
        requires
            old(context).spec_program_bound() == self.spec_program().id_spec(),
        ensures
            r is Ok <==> count * uniform_type.spec_element_count() <= values@.len(),
            r is Ok ==> final(context).spec_calls().len() == old(context).spec_calls().len() + 1
                && final(context).spec_calls().drop_last() == old(context).spec_calls()
                && crate::program::uniform::spec_is_uniform_u32(
                final(context).spec_calls().last(),
                location,
                count,
                uniform_type,
                values@,
            ),
            r is Err ==> final(context).spec_calls() == old(context).spec_calls(),
            r matches Err(e) ==> e == (UniformValueError {
                count,
                element_count: uniform_type.spec_element_count(),
                provided_len: values@.len() as usize,
            }),
            same_bindings(*old(context), *final(context)),
            final(context).spec_counter() == old(context).spec_counter(),
            final(context).spec_info() == old(context).spec_info(),
    {
        match crate::program::uniform::validate_uniform_u32(count, uniform_type, values) {
            Ok(()) => {
                context.record(
                    DriverCall::UniformU32 {
                        location,
                        count,
                        shape: uniform_type,
                        values: vstd::slice::slice_to_vec(values),
                    },
                );
                proof {
                    assert(context.spec_calls().drop_last() =~= old(context).spec_calls());
                }
                Ok(())
            },
            Err(error) => Err(error),
        }
    }

    /// Set `i32` uniform values.  Validation as in [`Self::uniform_f32`].
    pub fn uniform_i32(
        &self,
        context: &mut Context,
        location: i32,
        count: usize,
        uniform_type: SimpleUniformTypeI32,
        values: &[i32],
    ) -> (r: Result<(), UniformValueError>)
        requires
            old(context).spec_program_bound() == self.spec_program().id_spec(),
        ensures
            r is Ok <==> count * uniform_type.spec_element_count() <= values@.len(),
            r is Ok ==> final(context).spec_calls().len() == old(context).spec_calls().len() + 1
                && final(context).spec_calls().drop_last() == old(context).spec_calls()
                && crate::program::uniform::spec_is_uniform_i32(
                final(context).spec_calls().last(),
                location,
                count,
                uniform_type,
                values@,
            ),
            r is Err ==> final(context).spec_calls() == old(context).spec_calls(),
            r matches Err(e) ==> e == (UniformValueError {
                count,
                element_count: uniform_type.spec_element_count(),
                provided_len: values@.len() as usize,
            }),
            same_bindings(*old(context), *final(context)),
            final(context).spec_counter() == old(context).spec_counter(),
            final(context).spec_info() == old(context).spec_info(),
    {
        match crate::program::uniform::validate_uniform_i32(count, uniform_type, values) {
            Ok(()) => {
                context.record(
                    DriverCall::UniformI32 {
                        location,
                        count,
                        shape: uniform_type,
                        values: vstd::slice::slice_to_vec(values),
                    },
                );
                proof {
                    assert(context.spec_calls().drop_last() =~= old(context).spec_calls());
                }
                Ok(())
            },
            Err(error) => Err(error),
        }
    }
}

/// Bind a program for editing and hand out an editor for it.
pub fn new_program_editor(context: &mut Context, program: &ProgramHandle) -> (r: ProgramEditor)
    ensures
        r.spec_program() == program.res(),
        final(context).spec_program_bound() == program.res().id_spec(),
        (final(context).spec_program_bound(), final(context).spec_calls()) == bind_step(
            old(context).spec_program_bound(),
            program.res().id_spec(),
            program.res().bind_call_spec(),
            old(context).spec_calls(),
        ),
        final(context).spec_vbo_bound() == old(context).spec_vbo_bound(),
        final(context).spec_ubo_bound() == old(context).spec_ubo_bound(),
        final(context).spec_vao_bound() == old(context).spec_vao_bound(),
        same_render_targets(*old(context), *final(context)),
        final(context).spec_counter() == old(context).spec_counter(),
        final(context).spec_info() == old(context).spec_info(),
{
    context.bind_program_for_editing(program.access());
    ProgramEditor { program: program.clone() }
}

impl Bind for Program {
    closed spec fn id_spec(&self) -> u32 {
        self.tracker_id.spec_id()
    }

    open spec fn bind_call_spec(&self) -> DriverCall {
        DriverCall::UseProgram { name: self.spec_name() }
    }

    fn get_id(&self) -> (r: TrackerId)
        ensures
            r.spec_id() == self.id_spec(),
    {
        self.tracker_id
    }

    fn bind_call(&self) -> (c: DriverCall)
        ensures
            c == self.bind_call_spec(),
    {
        DriverCall::UseProgram { name: self.id }
    }
}

} // verus!
