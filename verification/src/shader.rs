//! Shaders: individually compiled stages of the programmable pipeline.
//!
//! A shader is created against a driver object, given its source and
//! compiled.  Whether compilation succeeded is *reported as data* — a
//! status flag and a diagnostic log — never raised automatically: the
//! embedding application decides whether a failed compile is fatal.

use vstd::prelude::*;

use crate::context::RegistrationHandle;
use crate::driver::DriverCall;

verus! {

/// Supported shader stages.
#[derive(Debug, Clone, Copy, PartialEq, Eq, Structural)]
pub enum ShaderType {
    VertexShader,
    FragmentShader,
}

/// A driver-side shader object.
pub struct Shader {
    id: u32,
    shader_type: ShaderType,
    registration: RegistrationHandle,
}

impl Shader {
    /// The driver-assigned object name, for specifications.
    pub closed spec fn spec_name(&self) -> u32 {
        self.id
    }

    /// The stage this shader belongs to.
    pub closed spec fn spec_shader_type(&self) -> ShaderType {
        self.shader_type
    }

    /// Wrap the driver shader object `name` — which must have been created
    /// for stage `shader_type` — set its source and compile it.
    ///
    /// Compile status and diagnostics are not part of the record: they are
    /// queried from the driver afterwards and carried by a
    /// [`ShaderInfoAccessor`].
    pub fn new(
        shader_type: ShaderType,
        source: String,
        name: u32,
        registration: RegistrationHandle,
        log: &mut Vec<DriverCall>,
    ) -> (r: Shader)
        ensures
            r.spec_name() == name,
            r.spec_shader_type() == shader_type,
            final(log)@ == old(log)@.push(
                DriverCall::ShaderSource { shader: name, source: source },
            ).push(DriverCall::CompileShader { shader: name }),
    {
        log.push(DriverCall::ShaderSource { shader: name, source });
        log.push(DriverCall::CompileShader { shader: name });
        Shader { id: name, shader_type, registration }
    }

    /// Identify the shader: the actual driver object name.
    pub fn get_id(&self) -> (r: u32)
        ensures
            r == self.spec_name(),
    {
        self.id
    }

    /// The teardown call this shader owes the driver, gated on the owning
    /// context being alive.
    pub fn delete_call(&self, context_alive: bool) -> (r: Option<DriverCall>)
        ensures
            context_alive ==> r == Some(DriverCall::DeleteShader { name: self.spec_name() }),
            !context_alive ==> r is None,
    {
        if context_alive {
            Some(DriverCall::DeleteShader { name: self.id })
        } else {
            None
        }
    }

    /// Give the shader up, returning the delete call to issue, if any.
    /// The call is present only while the owning context is alive.
    pub fn release(self) -> (r: Option<DriverCall>)
        ensures
            r matches Some(c) ==> c == (DriverCall::DeleteShader { name: self.spec_name() }),
    {
        let alive = self.registration.context_alive();
        self.delete_call(alive)
    }
}

/// Compilation outcome of a shader, reported as data: a status flag plus
/// the driver's diagnostic log, as queried by the embedding program.
pub struct ShaderInfoAccessor {
    compile_status: bool,
    info_log: String,
}

impl ShaderInfoAccessor {
    /// The reported status, for specifications.
    pub closed spec fn spec_compile_status(&self) -> bool {
        self.compile_status
    }

    /// The reported diagnostic text, for specifications.
    pub closed spec fn spec_info_log(&self) -> Seq<char> {
        self.info_log@
    }

    /// The shader info log; it may explain a failed compile.
    pub fn get_info_log(&self) -> (r: String)
        ensures
            r@ == self.spec_info_log(),
    {
        self.info_log.clone()
    }

    /// Whether compiling the shader succeeded.
    pub fn get_compile_status(&self) -> (r: bool)
        ensures
            r == self.spec_compile_status(),
    {
        self.compile_status
    }
}

/// Bundle a queried compile status and info log into an accessor.
pub fn new_shader_info_accessor(compile_status: bool, info_log: String) -> (r: ShaderInfoAccessor)
    ensures
        r.spec_compile_status() == compile_status,
        r.spec_info_log() == info_log@,
{
    ShaderInfoAccessor { compile_status, info_log }
}

} // verus!
