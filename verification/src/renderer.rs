//! Drawing commands and the rendering-mode view of the context.
//!
//! The renderer's `use_*` methods bind resources for rendering through
//! the render-aware trackers, and every draw method first restores the
//! rendering-time bindings, so binds made for editing in between never
//! decide what a draw call works on.

use vstd::prelude::*;

use crate::context::same_render_targets;
use crate::context::spec_after_restore;
use crate::context::Context;
use crate::driver::DriverCall;
use crate::handle::HandleAccess;
use crate::tracker::bind_step;
use crate::tracker::Bind;
use crate::ProgramHandle;
use crate::VertexArrayHandle;

verus! {

/// Supported primitive drawing modes.
#[derive(Debug, Clone, Copy, PartialEq, Eq, Structural)]
pub enum PrimitiveMode {
    Triangles,
}

/// The scalar width of the indices consumed by an indexed draw call.
#[derive(Debug, Clone, Copy, PartialEq, Eq, Structural)]
pub enum IndexType {
    UnsignedByte,
    UnsignedShort,
    UnsignedInt,
}

/// The rendering mode of the context: binds resources *for rendering*
/// and records the draw calls themselves.
pub struct Renderer {}

impl Renderer {
    /// Construct a renderer.
    pub fn new() -> Renderer {
        Renderer {  }
    }

    /// Bind a vertex array for drawing.
    pub fn use_vertex_array(&mut self, context: &mut Context, vao: &VertexArrayHandle)
        ensures
            (final(context).spec_vao_bound(), final(context).spec_calls()) == bind_step(
                old(context).spec_vao_bound(),
                vao.res().id_spec(),
                vao.res().bind_call_spec(),
                old(context).spec_calls(),
            ),
            final(context).spec_vao_render_target() == Some(vao.res().id_spec()),
            final(context).spec_vao_render_call() == Some(vao.res().bind_call_spec()),
            final(context).spec_vbo_bound() == old(context).spec_vbo_bound(),
            final(context).spec_ubo_bound() == old(context).spec_ubo_bound(),
            final(context).spec_program_bound() == old(context).spec_program_bound(),
            final(context).spec_program_render_target() == old(
                context,
            ).spec_program_render_target(),
            final(context).spec_program_render_call() == old(context).spec_program_render_call(),
            final(context).spec_counter() == old(context).spec_counter(),
            final(context).spec_info() == old(context).spec_info(),
    {
        context.bind_vao_for_rendering(vao);
    }

    /// Use a program for drawing: it defines the programmable part of
    /// the pipeline, so most of it.
    pub fn use_program(&mut self, context: &mut Context, program: &ProgramHandle)
        ensures
            (final(context).spec_program_bound(), final(context).spec_calls()) == bind_step(
                old(context).spec_program_bound(),
                program.res().id_spec(),
                program.res().bind_call_spec(),
                old(context).spec_calls(),
            ),
            final(context).spec_program_render_target() == Some(program.res().id_spec()),
            final(context).spec_program_render_call() == Some(program.res().bind_call_spec()),
            final(context).spec_vbo_bound() == old(context).spec_vbo_bound(),
            final(context).spec_ubo_bound() == old(context).spec_ubo_bound(),
            final(context).spec_vao_bound() == old(context).spec_vao_bound(),
            final(context).spec_vao_render_target() == old(context).spec_vao_render_target(),
            final(context).spec_vao_render_call() == old(context).spec_vao_render_call(),
            final(context).spec_counter() == old(context).spec_counter(),
            final(context).spec_info() == old(context).spec_info(),
    {
        context.bind_program_for_rendering(program);
    }

    /// Draw unindexed vertices: restore the rendering-time bindings, then
    /// record the draw call.
    pub fn draw_arrays(&mut self, context: &mut Context, primitive_mode: PrimitiveMode, first: u32, count: u32)
        ensures
            ({
                let (vao_bound, program_bound, calls) = spec_after_restore(*old(context));
                &&& final(context).spec_vao_bound() == vao_bound
                &&& final(context).spec_program_bound() == program_bound
                &&& final(context).spec_calls() == calls.push(
                    DriverCall::DrawArrays { mode: primitive_mode, first: first, count: count },
                )
            }),
            final(context).spec_vbo_bound() == old(context).spec_vbo_bound(),
            final(context).spec_ubo_bound() == old(context).spec_ubo_bound(),
            same_render_targets(*old(context), *final(context)),
            final(context).spec_counter() == old(context).spec_counter(),
            final(context).spec_info() == old(context).spec_info(),
    {
        context.prepare_for_rendering();
        context.record(
            DriverCall::DrawArrays { mode: primitive_mode, first, count },
        );
    }

    /// Draw indexed vertices with byte-sized indices.
    pub fn draw_elements_u8(&mut self, context: &mut Context, primitive_mode: PrimitiveMode, count: u32, start: u32)
        ensures
            ({
                let (vao_bound, program_bound, calls) = spec_after_restore(*old(context));
                &&& final(context).spec_vao_bound() == vao_bound
                &&& final(context).spec_program_bound() == program_bound
                &&& final(context).spec_calls() == calls.push(
                    DriverCall::DrawElements {
                        mode: primitive_mode,
                        count: count,
                        index_type: IndexType::UnsignedByte,
                        start: start,
                    },
                )
            }),
            final(context).spec_vbo_bound() == old(context).spec_vbo_bound(),
            final(context).spec_ubo_bound() == old(context).spec_ubo_bound(),
            same_render_targets(*old(context), *final(context)),
            final(context).spec_counter() == old(context).spec_counter(),
            final(context).spec_info() == old(context).spec_info(),
    {
        self.draw_elements(context, primitive_mode, count, IndexType::UnsignedByte, start);
    }

    /// Draw indexed vertices with 16-bit indices.
    pub fn draw_elements_u16(&mut self, context: &mut Context, primitive_mode: PrimitiveMode, count: u32, start: u32)
        ensures
            ({
                let (vao_bound, program_bound, calls) = spec_after_restore(*old(context));
                &&& final(context).spec_vao_bound() == vao_bound
                &&& final(context).spec_program_bound() == program_bound
                &&& final(context).spec_calls() == calls.push(
                    DriverCall::DrawElements {
                        mode: primitive_mode,
                        count: count,
                        index_type: IndexType::UnsignedShort,
                        start: start,
                    },
                )
            }),
            final(context).spec_vbo_bound() == old(context).spec_vbo_bound(),
            final(context).spec_ubo_bound() == old(context).spec_ubo_bound(),
            same_render_targets(*old(context), *final(context)),
            final(context).spec_counter() == old(context).spec_counter(),
            final(context).spec_info() == old(context).spec_info(),
    {
        self.draw_elements(context, primitive_mode, count, IndexType::UnsignedShort, start);
    }

    /// Draw indexed vertices with 32-bit indices.
    pub fn draw_elements_u32(&mut self, context: &mut Context, primitive_mode: PrimitiveMode, count: u32, start: u32)
        ensures
            ({
                let (vao_bound, program_bound, calls) = spec_after_restore(*old(context));
                &&& final(context).spec_vao_bound() == vao_bound
                &&& final(context).spec_program_bound() == program_bound
                &&& final(context).spec_calls() == calls.push(
                    DriverCall::DrawElements {
                        mode: primitive_mode,
                        count: count,
                        index_type: IndexType::UnsignedInt,
                        start: start,
                    },
                )
            }),
            final(context).spec_vbo_bound() == old(context).spec_vbo_bound(),
            final(context).spec_ubo_bound() == old(context).spec_ubo_bound(),
            same_render_targets(*old(context), *final(context)),
            final(context).spec_counter() == old(context).spec_counter(),
            final(context).spec_info() == old(context).spec_info(),
    {
        self.draw_elements(context, primitive_mode, count, IndexType::UnsignedInt, start);
    }

    fn draw_elements(
        &mut self,
        context: &mut Context,
        primitive_mode: PrimitiveMode,
        count: u32,
        index_type: IndexType,
        start: u32,
    )
        ensures
            ({
                let (vao_bound, program_bound, calls) = spec_after_restore(*old(context));
                &&& final(context).spec_vao_bound() == vao_bound
                &&& final(context).spec_program_bound() == program_bound
                &&& final(context).spec_calls() == calls.push(
                    DriverCall::DrawElements {
                        mode: primitive_mode,
                        count: count,
                        index_type: index_type,
                        start: start,
                    },
                )
            }),
            final(context).spec_vbo_bound() == old(context).spec_vbo_bound(),
            final(context).spec_ubo_bound() == old(context).spec_ubo_bound(),
            same_render_targets(*old(context), *final(context)),
            final(context).spec_counter() == old(context).spec_counter(),
            final(context).spec_info() == old(context).spec_info(),
    {
        context.prepare_for_rendering();
        context.record(
            DriverCall::DrawElements { mode: primitive_mode, count, index_type, start },
        );
    }

    /// Clear the current surface.
    pub fn clear(&mut self, context: &mut Context)
        ensures
            final(context).spec_calls() == old(context).spec_calls().push(DriverCall::Clear),
            crate::context::same_bindings(*old(context), *final(context)),
            final(context).spec_counter() == old(context).spec_counter(),
            final(context).spec_info() == old(context).spec_info(),
    {
        context.record(DriverCall::Clear);
    }
}

} // verus!
