//! A safety-oriented layer over a stateful, handle-based graphics driver.
//!
//! The library does not talk to the driver itself: every state-changing
//! driver call it decides to make is recorded as a [`driver::DriverCall`]
//! value, and the embedding program executes those records against the real
//! driver in order.  What the library owns — and what is verified — is the
//! client-side logic: the binding trackers that elide redundant bind calls,
//! the resource-lifetime rules that gate teardown calls on the context still
//! being alive, the vertex-attribute layout arithmetic, and the program
//! introspection and uniform-value validation rules.

use vstd::prelude::*;

pub mod buffer;
pub mod context;
pub mod driver;
pub mod handle;
pub mod info;
pub mod program;
pub mod renderer;
pub mod shader;
pub mod tracker;
pub mod util;
pub mod vertexarray;

pub use context::Context;
pub use program::attribute::ShaderAttribute;
pub use program::attribute::ShaderAttributeInfo;
pub use program::uniform::BlockUniform;
pub use program::uniform::InterfaceBlock;
pub use program::uniform::SimpleUniformTypeFloat;
pub use program::uniform::SimpleUniformTypeI32;
pub use program::uniform::SimpleUniformTypeMatrix;
pub use program::uniform::SimpleUniformTypeU32;
pub use program::uniform::Uniform;
pub use program::uniform::UniformInfo;
pub use program::ProgramEditor;
pub use program::ProgramInfoAccessor;
pub use renderer::PrimitiveMode;
pub use renderer::Renderer;
pub use shader::ShaderInfoAccessor;
pub use shader::ShaderType;
pub use vertexarray::VertexAttributeType;

verus! {

/// Handle to a vertex buffer object.
pub type VertexBufferHandle = handle::Handle<buffer::vertexbuffer::VertexBuffer>;

/// Handle to an index buffer object.
pub type IndexBufferHandle = handle::Handle<buffer::indexbuffer::IndexBuffer>;

/// Handle to a uniform buffer object.
pub type UniformBufferHandle = handle::Handle<buffer::uniformbuffer::UniformBuffer>;

/// Handle to a vertex array object.
pub type VertexArrayHandle = handle::Handle<vertexarray::VertexArray>;

/// Handle to a shader object.  Shaders are not used for rendering by
/// themselves; they are linked into program objects.
pub type ShaderHandle = handle::Handle<shader::Shader>;

/// Handle to a shader program.
pub type ProgramHandle = handle::Handle<program::Program>;

} // verus!
