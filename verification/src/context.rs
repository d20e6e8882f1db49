//! The context: the façade that owns the binding trackers, mints tracker
//! identifiers, records the outgoing driver calls, and shares a liveness
//! flag with every resource it spawns.

use std::rc::Rc;

use vstd::cell::invcell::InvCell;
use vstd::predicate::Predicate;
use vstd::prelude::*;

use crate::buffer::uniformbuffer::UniformBuffer;
use crate::buffer::vertexbuffer::VertexBuffer;
use crate::buffer::BufferType;
use crate::driver::DriverCall;
use crate::handle::new_handle;
use crate::handle::HandleAccess;
use crate::info::ContextInfo;
use crate::program::Program;
use crate::shader::Shader;
use crate::shader::ShaderType;
use crate::tracker::bind_step;
use crate::tracker::Bind;
use crate::tracker::RenderBindingTracker;
use crate::tracker::SimpleBindingTracker;
use crate::tracker::TrackerId;
use crate::tracker::TrackerIdGenerator;
use crate::vertexarray::LayoutField;
use crate::vertexarray::VertexAttribute;
use crate::vertexarray::VertexArray;
use crate::IndexBufferHandle;
use crate::ProgramHandle;
use crate::ShaderHandle;
use crate::UniformBufferHandle;
use crate::VertexArrayHandle;
use crate::VertexBufferHandle;

verus! {

/// What the context shares with every resource it spawns: above all,
/// whether the context is still alive.  Resource handles may outlive the
/// context, and a resource torn down after the context has died must not
/// issue a driver delete call into the dead context.
#[derive(Debug, Clone, Copy, PartialEq, Eq, Structural)]
pub struct SharedContextState {
    pub context_alive: bool,
}

impl SharedContextState {
    /// The state at context creation: alive.
    pub fn new() -> (r: SharedContextState)
        ensures
            r.context_alive,
    {
        SharedContextState { context_alive: true }
    }
}

/// The cell invariant for the shared state.  Both states are admissible:
/// which one is current depends on whether the context has been destroyed,
/// something no single holder of the cell can know by itself.
pub struct SharedStateInv {}

impl Predicate<SharedContextState> for SharedStateInv {
    open spec fn predicate(&self, v: SharedContextState) -> bool {
        true
    }
}

/// The interior-mutable cell holding the shared state, owned jointly by
/// the context and every registration handle it gave out.
pub type SharedStateCell = Rc<InvCell<SharedContextState, SharedStateInv>>;

/// Build a fresh shared-state cell in the alive state.
pub(crate) fn new_shared_state_cell() -> SharedStateCell {
    Rc::new(InvCell::new(SharedContextState::new(), Ghost(SharedStateInv {})))
}

/// A resource's handle to the shared context state.  Every resource holds
/// one and consults it before issuing any teardown call to the driver.
pub struct RegistrationHandle {
    context_shared: SharedStateCell,
}

impl RegistrationHandle {
    /// Wrap a shared-state cell.
    pub fn new(context_shared: SharedStateCell) -> RegistrationHandle {
        RegistrationHandle { context_shared }
    }

    /// Whether the owning context is still alive.
    ///
    /// Nothing can be promised about the answer: it depends on whether the
    /// context has been destroyed in the meantime.  Everything that hinges
    /// on the answer is therefore specified in functions that take the
    /// answer as an argument, such as the resources' `delete_call`.
    pub fn context_alive(&self) -> bool {
        self.context_shared.get().context_alive
    }
}

impl Clone for RegistrationHandle {
    /// Cloning shares the same cell.
    fn clone(&self) -> (r: Self)
        ensures
            r == *self,
    {
        RegistrationHandle { context_shared: self.context_shared.clone() }
    }
}

/// The stand-in for the driver context, and the starting point for all
/// functionality: resources are created and edited through it, and every
/// driver call the library decides to make is appended to its call log.
///
/// Editing borrows the context mutably, so the verifier can see that a
/// buffer is still the bound one when its contents are replaced, and the
/// trackers can elide binds that would be redundant.
pub struct Context {
    info: ContextInfo,
    id_generator: TrackerIdGenerator,
    /// Programs get the render-aware tracker because uniforms may be
    /// edited mid-frame, after the program was already bound for drawing.
    program_tracker: RenderBindingTracker<Program>,
    vbo_tracker: SimpleBindingTracker<VertexBuffer>,
    ubo_tracker: SimpleBindingTracker<UniformBuffer>,
    vao_tracker: RenderBindingTracker<VertexArray>,
    /// Shared with every resource spawned from this context: mainly the
    /// fact that the context is alive (or no longer is).
    shared_state: SharedStateCell,
    calls: Vec<DriverCall>,
}

impl Context {
    /// The driver calls recorded so far and not yet taken.
    pub closed spec fn spec_calls(&self) -> Seq<DriverCall> {
        self.calls@
    }

    /// How many tracker identifiers have been minted.
    pub closed spec fn spec_counter(&self) -> u32 {
        self.id_generator.spec_counter()
    }

    /// The tracker identifier of the bound vertex buffer, `0` if none.
    pub closed spec fn spec_vbo_bound(&self) -> u32 {
        self.vbo_tracker.bound_id()
    }

    /// The tracker identifier of the bound uniform buffer, `0` if none.
    pub closed spec fn spec_ubo_bound(&self) -> u32 {
        self.ubo_tracker.bound_id()
    }

    /// The tracker identifier of the bound vertex array, `0` if none.
    pub closed spec fn spec_vao_bound(&self) -> u32 {
        self.vao_tracker.bound_id()
    }

    /// The tracker identifier of the bound program, `0` if none.
    pub closed spec fn spec_program_bound(&self) -> u32 {
        self.program_tracker.bound_id()
    }

    /// The remembered render-time vertex array, by tracker identifier.
    pub closed spec fn spec_vao_render_target(&self) -> Option<u32> {
        self.vao_tracker.render_target_id()
    }

    /// The bind call of the remembered render-time vertex array.
    pub closed spec fn spec_vao_render_call(&self) -> Option<DriverCall> {
        self.vao_tracker.render_target_call()
    }

    /// The remembered render-time program, by tracker identifier.
    pub closed spec fn spec_program_render_target(&self) -> Option<u32> {
        self.program_tracker.render_target_id()
    }

    /// The bind call of the remembered render-time program.
    pub closed spec fn spec_program_render_call(&self) -> Option<DriverCall> {
        self.program_tracker.render_target_call()
    }

    /// The context limits given at construction.
    pub closed spec fn spec_info(&self) -> ContextInfo {
        self.info
    }
}

/// Both contexts hold the same remembered render-time resources.
pub open spec fn same_render_targets(a: Context, b: Context) -> bool {
    &&& a.spec_vao_render_target() == b.spec_vao_render_target()
    &&& a.spec_vao_render_call() == b.spec_vao_render_call()
    &&& a.spec_program_render_target() == b.spec_program_render_target()
    &&& a.spec_program_render_call() == b.spec_program_render_call()
}

/// Both contexts hold the same binding state: the same resources bound to
/// every slot and the same remembered render-time resources.
pub open spec fn same_bindings(a: Context, b: Context) -> bool {
    &&& a.spec_vbo_bound() == b.spec_vbo_bound()
    &&& a.spec_ubo_bound() == b.spec_ubo_bound()
    &&& a.spec_vao_bound() == b.spec_vao_bound()
    &&& a.spec_program_bound() == b.spec_program_bound()
    &&& same_render_targets(a, b)
}

/// What restoring the rendering state does to a context: the bound vertex
/// array and program, and the call log, after the remembered render-time
/// vertex array and program were re-bound (each elided when still bound,
/// or absent).
pub open spec fn spec_after_restore(c: Context) -> (u32, u32, Seq<DriverCall>) {
    let (vao_bound, calls_after_vao) = match (c.spec_vao_render_target(), c.spec_vao_render_call()) {
        (Some(id), Some(call)) => bind_step(c.spec_vao_bound(), id, call, c.spec_calls()),
        _ => (c.spec_vao_bound(), c.spec_calls()),
    };
    let (program_bound, calls_after_program) = match (
        c.spec_program_render_target(),
        c.spec_program_render_call(),
    ) {
        (Some(id), Some(call)) => bind_step(c.spec_program_bound(), id, call, calls_after_vao),
        _ => (c.spec_program_bound(), calls_after_vao),
    };
    (vao_bound, program_bound, calls_after_program)
}

impl Context {
    /// Create a context.  Do not create more than one per actual driver
    /// context: the trackers mirror driver state, and two mirrors of one
    /// driver would contradict each other.
    ///
    /// `info` carries the context limits the embedding program queried
    /// from the driver.
    pub fn new(info: ContextInfo) -> (r: Context)
        ensures
            r.spec_counter() == 0,
            r.spec_vbo_bound() == 0,
            r.spec_ubo_bound() == 0,
            r.spec_vao_bound() == 0,
            r.spec_program_bound() == 0,
            r.spec_vao_render_target() is None,
            r.spec_program_render_target() is None,
            r.spec_calls() == Seq::<DriverCall>::empty(),
            r.spec_info() == info,
    {
        let context = Context {
            info,
            id_generator: TrackerIdGenerator::new(),
            program_tracker: RenderBindingTracker::new(),
            vbo_tracker: SimpleBindingTracker::new(),
            ubo_tracker: SimpleBindingTracker::new(),
            vao_tracker: RenderBindingTracker::new(),
            shared_state: new_shared_state_cell(),
            calls: Vec::new(),
        };
        proof {
            assert(context.spec_calls() =~= Seq::<DriverCall>::empty());
        }
        context
    }

    /// Resources get a handle to the shared state.
    pub(crate) fn registration_handle(&self) -> RegistrationHandle {
        RegistrationHandle::new(self.shared_state.clone())
    }

    /// Mint a fresh tracker identifier.
    pub(crate) fn new_tracker_id(&mut self) -> (r: TrackerId)
        requires
            old(self).spec_counter() < u32::MAX,
        ensures
            final(self).spec_counter() == old(self).spec_counter() + 1,
            r.spec_id() == old(self).spec_counter() + 1,
            final(self).spec_calls() == old(self).spec_calls(),
            same_bindings(*old(self), *final(self)),
            final(self).spec_info() == old(self).spec_info(),
    {
        self.id_generator.new_id()
    }

    /// How many tracker identifiers have been minted so far.  Check
    /// this against the 32-bit maximum before creating a resource:
    /// running out of identifiers is unrecoverable.
    pub fn id_count(&self) -> (r: u32)
        ensures
            r == self.spec_counter(),
    {
        self.id_generator.count()
    }

    /// Append one driver call to the log.
    pub(crate) fn record(&mut self, call: DriverCall)
        ensures
            final(self).spec_calls() == old(self).spec_calls().push(call),
            final(self).spec_counter() == old(self).spec_counter(),
            same_bindings(*old(self), *final(self)),
            final(self).spec_info() == old(self).spec_info(),
    {
        self.calls.push(call);
    }

    /// Borrow the recorded driver calls, without taking them.
    pub fn calls(&self) -> (r: &Vec<DriverCall>)
        ensures
            r@ == self.spec_calls(),
    {
        &self.calls
    }

    /// Take the recorded driver calls, leaving the log empty.  The caller
    /// is responsible for performing them against the driver, in order.
    pub fn take_calls(&mut self) -> (r: Vec<DriverCall>)
        ensures
            r@ == old(self).spec_calls(),
            final(self).spec_calls() == Seq::<DriverCall>::empty(),
            final(self).spec_counter() == old(self).spec_counter(),
            same_bindings(*old(self), *final(self)),
            final(self).spec_info() == old(self).spec_info(),
    {
        let mut taken: Vec<DriverCall> = Vec::new();
        core::mem::swap(&mut taken, &mut self.calls);
        proof {
            assert(final(self).spec_calls() =~= Seq::<DriverCall>::empty());
        }
        taken
    }

    /// `ContextInfo` contains unchanging values related to the context,
    /// like the uniform-buffer limits.
    pub fn get_info(&self) -> (r: &ContextInfo)
        ensures
            *r == self.spec_info(),
    {
        &self.info
    }

    /// Destroy the context: the shared liveness flag is set false, once
    /// and forever.  Resources released after this observe a dead context
    /// and skip their driver delete calls.
    pub fn destroy(self) {
        self.shared_state.set(SharedContextState { context_alive: false });
    }

    // Binding for editing.  These are used by the editor constructors and
    // the vertex-array builder; the trackers make each one append a bind
    // call only when the binding actually changes.

    /// Bind a vertex buffer for editing.
    pub fn bind_vbo_for_editing(&mut self, vbo: &VertexBuffer)
        ensures
            (final(self).spec_vbo_bound(), final(self).spec_calls()) == bind_step(
                old(self).spec_vbo_bound(),
                vbo.id_spec(),
                vbo.bind_call_spec(),
                old(self).spec_calls(),
            ),
            final(self).spec_ubo_bound() == old(self).spec_ubo_bound(),
            final(self).spec_vao_bound() == old(self).spec_vao_bound(),
            final(self).spec_program_bound() == old(self).spec_program_bound(),
            same_render_targets(*old(self), *final(self)),
            final(self).spec_counter() == old(self).spec_counter(),
            final(self).spec_info() == old(self).spec_info(),
    {
        self.vbo_tracker.bind(vbo, &mut self.calls);
    }

    /// Bind a uniform buffer for editing.
    pub fn bind_ubo_for_editing(&mut self, ubo: &UniformBuffer)
        ensures
            (final(self).spec_ubo_bound(), final(self).spec_calls()) == bind_step(
                old(self).spec_ubo_bound(),
                ubo.id_spec(),
                ubo.bind_call_spec(),
                old(self).spec_calls(),
            ),
            final(self).spec_vbo_bound() == old(self).spec_vbo_bound(),
            final(self).spec_vao_bound() == old(self).spec_vao_bound(),
            final(self).spec_program_bound() == old(self).spec_program_bound(),
            same_render_targets(*old(self), *final(self)),
            final(self).spec_counter() == old(self).spec_counter(),
            final(self).spec_info() == old(self).spec_info(),
    {
        self.ubo_tracker.bind(ubo, &mut self.calls);
    }

    /// Bind a vertex array for editing; the remembered render-time vertex
    /// array is untouched.
    pub fn bind_vao_for_editing(&mut self, vao: &VertexArray)
        ensures
            (final(self).spec_vao_bound(), final(self).spec_calls()) == bind_step(
                old(self).spec_vao_bound(),
                vao.id_spec(),
                vao.bind_call_spec(),
                old(self).spec_calls(),
            ),
            final(self).spec_vbo_bound() == old(self).spec_vbo_bound(),
            final(self).spec_ubo_bound() == old(self).spec_ubo_bound(),
            final(self).spec_program_bound() == old(self).spec_program_bound(),
            same_render_targets(*old(self), *final(self)),
            final(self).spec_counter() == old(self).spec_counter(),
            final(self).spec_info() == old(self).spec_info(),
    {
        self.vao_tracker.bind_for_editing(vao, &mut self.calls);
    }

    /// Bind a program for editing; the remembered render-time program is
    /// untouched.
    pub fn bind_program_for_editing(&mut self, program: &Program)
        ensures
            (final(self).spec_program_bound(), final(self).spec_calls()) == bind_step(
                old(self).spec_program_bound(),
                program.id_spec(),
                program.bind_call_spec(),
                old(self).spec_calls(),
            ),
            final(self).spec_vbo_bound() == old(self).spec_vbo_bound(),
            final(self).spec_ubo_bound() == old(self).spec_ubo_bound(),
            final(self).spec_vao_bound() == old(self).spec_vao_bound(),
            same_render_targets(*old(self), *final(self)),
            final(self).spec_counter() == old(self).spec_counter(),
            final(self).spec_info() == old(self).spec_info(),
    {
        self.program_tracker.bind_for_editing(program, &mut self.calls);
    }

    // Editors.

    /// Edit a vertex buffer: bind it for editing and return an editor
    /// that can replace the buffer's contents.
    pub fn edit_vertex_buffer(&mut self, vbo: &VertexBufferHandle) -> (r:
        crate::buffer::vertexbuffer::VertexBufferEditor)
        ensures
            r.spec_buffer() == vbo.res(),
            final(self).spec_vbo_bound() == vbo.res().id_spec(),
            (final(self).spec_vbo_bound(), final(self).spec_calls()) == bind_step(
                old(self).spec_vbo_bound(),
                vbo.res().id_spec(),
                vbo.res().bind_call_spec(),
                old(self).spec_calls(),
            ),
            final(self).spec_ubo_bound() == old(self).spec_ubo_bound(),
            final(self).spec_vao_bound() == old(self).spec_vao_bound(),
            final(self).spec_program_bound() == old(self).spec_program_bound(),
            same_render_targets(*old(self), *final(self)),
            final(self).spec_counter() == old(self).spec_counter(),
            final(self).spec_info() == old(self).spec_info(),
    {
        crate::buffer::vertexbuffer::new_vertex_buffer_editor(self, vbo)
    }

    /// Edit a uniform buffer: bind it for editing and return an editor
    /// that can replace the buffer's contents.
    pub fn edit_uniform_buffer(&mut self, ubo: &UniformBufferHandle) -> (r:
        crate::buffer::uniformbuffer::UniformBufferEditor)
        ensures
            r.spec_buffer() == ubo.res(),
            final(self).spec_ubo_bound() == ubo.res().id_spec(),
            (final(self).spec_ubo_bound(), final(self).spec_calls()) == bind_step(
                old(self).spec_ubo_bound(),
                ubo.res().id_spec(),
                ubo.res().bind_call_spec(),
                old(self).spec_calls(),
            ),
            final(self).spec_vbo_bound() == old(self).spec_vbo_bound(),
            final(self).spec_vao_bound() == old(self).spec_vao_bound(),
            final(self).spec_program_bound() == old(self).spec_program_bound(),
            same_render_targets(*old(self), *final(self)),
            final(self).spec_counter() == old(self).spec_counter(),
            final(self).spec_info() == old(self).spec_info(),
    {
        crate::buffer::uniformbuffer::new_uniform_buffer_editor(self, ubo)
    }

    /// Edit an index buffer, addressed through the *vertex array* it is
    /// attached to, as the driver requires.
    ///
    /// Absence is not an error: a vertex array built without an index
    /// buffer yields `None` — every time — and nothing is bound.
    pub fn edit_index_buffer(&mut self, vao: &VertexArrayHandle) -> (r: Option<
        crate::buffer::indexbuffer::IndexBufferEditor,
    >)
        ensures
            r is Some <==> vao.res().spec_index_buffer() is Some,
            match r {
                Some(editor) => {
                    &&& editor.spec_vertex_array() == vao.res()
                    &&& final(self).spec_vao_bound() == vao.res().id_spec()
                    &&& (final(self).spec_vao_bound(), final(self).spec_calls()) == bind_step(
                        old(self).spec_vao_bound(),
                        vao.res().id_spec(),
                        vao.res().bind_call_spec(),
                        old(self).spec_calls(),
                    )
                },
                None => {
                    &&& final(self).spec_vao_bound() == old(self).spec_vao_bound()
                    &&& final(self).spec_calls() == old(self).spec_calls()
                },
            },
            final(self).spec_vbo_bound() == old(self).spec_vbo_bound(),
            final(self).spec_ubo_bound() == old(self).spec_ubo_bound(),
            final(self).spec_program_bound() == old(self).spec_program_bound(),
            same_render_targets(*old(self), *final(self)),
            final(self).spec_counter() == old(self).spec_counter(),
            final(self).spec_info() == old(self).spec_info(),
    {
        let has_index_buffer = vao.access().index_buffer().is_some();
        if has_index_buffer {
            Some(crate::buffer::indexbuffer::new_index_buffer_editor(self, vao))
        } else {
            None
        }
    }

    /// Edit a program: bind it for editing and return an editor that
    /// can set its uniform values.
    pub fn edit_program(&mut self, program: &ProgramHandle) -> (r: crate::program::ProgramEditor)
        ensures
            r.spec_program() == program.res(),
            final(self).spec_program_bound() == program.res().id_spec(),
            (final(self).spec_program_bound(), final(self).spec_calls()) == bind_step(
                old(self).spec_program_bound(),
                program.res().id_spec(),
                program.res().bind_call_spec(),
                old(self).spec_calls(),
            ),
            final(self).spec_vbo_bound() == old(self).spec_vbo_bound(),
            final(self).spec_ubo_bound() == old(self).spec_ubo_bound(),
            final(self).spec_vao_bound() == old(self).spec_vao_bound(),
            same_render_targets(*old(self), *final(self)),
            final(self).spec_counter() == old(self).spec_counter(),
            final(self).spec_info() == old(self).spec_info(),
    {
        crate::program::new_program_editor(self, program)
    }

    /// Return a renderer: the rendering-mode view of this context.  The
    /// renderer's operations take the context back as an argument; see
    /// `Renderer`.
    pub fn renderer(&mut self) -> (r: crate::renderer::Renderer)
        ensures
            *final(self) == *old(self),
    {
        crate::renderer::Renderer::new()
    }

    // Binding for rendering.

    /// Bind a vertex array for rendering and remember it for restoring.
    pub fn bind_vao_for_rendering(&mut self, vao: &VertexArrayHandle)
        ensures
            (final(self).spec_vao_bound(), final(self).spec_calls()) == bind_step(
                old(self).spec_vao_bound(),
                vao.res().id_spec(),
                vao.res().bind_call_spec(),
                old(self).spec_calls(),
            ),
            final(self).spec_vao_render_target() == Some(vao.res().id_spec()),
            final(self).spec_vao_render_call() == Some(vao.res().bind_call_spec()),
            final(self).spec_vbo_bound() == old(self).spec_vbo_bound(),
            final(self).spec_ubo_bound() == old(self).spec_ubo_bound(),
            final(self).spec_program_bound() == old(self).spec_program_bound(),
            final(self).spec_program_render_target() == old(self).spec_program_render_target(),
            final(self).spec_program_render_call() == old(self).spec_program_render_call(),
            final(self).spec_counter() == old(self).spec_counter(),
            final(self).spec_info() == old(self).spec_info(),
    {
        self.vao_tracker.bind_for_rendering(vao.rc(), &mut self.calls);
    }

    /// Bind a program for rendering and remember it for restoring.
    pub fn bind_program_for_rendering(&mut self, program: &ProgramHandle)
        ensures
            (final(self).spec_program_bound(), final(self).spec_calls()) == bind_step(
                old(self).spec_program_bound(),
                program.res().id_spec(),
                program.res().bind_call_spec(),
                old(self).spec_calls(),
            ),
            final(self).spec_program_render_target() == Some(program.res().id_spec()),
            final(self).spec_program_render_call() == Some(program.res().bind_call_spec()),
            final(self).spec_vbo_bound() == old(self).spec_vbo_bound(),
            final(self).spec_ubo_bound() == old(self).spec_ubo_bound(),
            final(self).spec_vao_bound() == old(self).spec_vao_bound(),
            final(self).spec_vao_render_target() == old(self).spec_vao_render_target(),
            final(self).spec_vao_render_call() == old(self).spec_vao_render_call(),
            final(self).spec_counter() == old(self).spec_counter(),
            final(self).spec_info() == old(self).spec_info(),
    {
        self.program_tracker.bind_for_rendering(program.rc(), &mut self.calls);
    }

    /// Re-bind the remembered render-time vertex array and program, so
    /// that binds made for editing in between never leak into a draw
    /// call's effective binding.  Invoked immediately before drawing.
    pub fn prepare_for_rendering(&mut self)
        ensures
            ({
                let (vao_bound, program_bound, calls) = spec_after_restore(*old(self));
                &&& final(self).spec_vao_bound() == vao_bound
                &&& final(self).spec_program_bound() == program_bound
                &&& final(self).spec_calls() == calls
            }),
            final(self).spec_vbo_bound() == old(self).spec_vbo_bound(),
            final(self).spec_ubo_bound() == old(self).spec_ubo_bound(),
            same_render_targets(*old(self), *final(self)),
            final(self).spec_counter() == old(self).spec_counter(),
            final(self).spec_info() == old(self).spec_info(),
    {
        self.vao_tracker.restore_rendering_state(&mut self.calls);
        self.program_tracker.restore_rendering_state(&mut self.calls);
    }

    // Construction of resources.

    /// Create a new vertex buffer wrapping the driver object named
    /// `name`, and return a handle to it.
    pub fn new_vertex_buffer(&mut self, name: u32) -> (h: VertexBufferHandle)
        requires
            old(self).spec_counter() < u32::MAX,
        ensures
            h.res().spec_name() == name,
            h.res().id_spec() == old(self).spec_counter() + 1,
            h.res().spec_target() == BufferType::VertexBuffer,
            final(self).spec_counter() == old(self).spec_counter() + 1,
            final(self).spec_calls() == old(self).spec_calls(),
            same_bindings(*old(self), *final(self)),
            final(self).spec_info() == old(self).spec_info(),
    {
        let registration = self.registration_handle();
        let id = self.new_tracker_id();
        new_handle(crate::buffer::vertexbuffer::new_vertex_buffer(id, name, registration))
    }

    /// Create a new index buffer wrapping the driver object named `name`,
    /// and return a handle to it.
    pub fn new_index_buffer(&mut self, name: u32) -> (h: IndexBufferHandle)
        requires
            old(self).spec_counter() < u32::MAX,
        ensures
            h.res().spec_name() == name,
            h.res().id_spec() == old(self).spec_counter() + 1,
            h.res().spec_target() == BufferType::IndexBuffer,
            final(self).spec_counter() == old(self).spec_counter() + 1,
            final(self).spec_calls() == old(self).spec_calls(),
            same_bindings(*old(self), *final(self)),
            final(self).spec_info() == old(self).spec_info(),
    {
        let registration = self.registration_handle();
        let id = self.new_tracker_id();
        new_handle(crate::buffer::indexbuffer::new_index_buffer(id, name, registration))
    }

    /// Create a new uniform buffer wrapping the driver object named
    /// `name`, and return a handle to it.
    pub fn new_uniform_buffer(&mut self, name: u32) -> (h: UniformBufferHandle)
        requires
            old(self).spec_counter() < u32::MAX,
        ensures
            h.res().spec_name() == name,
            h.res().id_spec() == old(self).spec_counter() + 1,
            h.res().spec_target() == BufferType::UniformBuffer,
            final(self).spec_counter() == old(self).spec_counter() + 1,
            final(self).spec_calls() == old(self).spec_calls(),
            same_bindings(*old(self), *final(self)),
            final(self).spec_info() == old(self).spec_info(),
    {
        let registration = self.registration_handle();
        let id = self.new_tracker_id();
        new_handle(crate::buffer::uniformbuffer::new_uniform_buffer(id, name, registration))
    }

    /// Create a new vertex array object against the driver object named
    /// `name`.  The attribute list is fixed for the vertex array's whole
    /// life; if an index buffer should be associated with it, hand in a
    /// handle to one.
    pub fn new_vertex_array(
        &mut self,
        attributes: &[VertexAttribute],
        index_buffer: Option<IndexBufferHandle>,
        name: u32,
    ) -> (h: VertexArrayHandle)
        requires
            old(self).spec_counter() < u32::MAX,
        ensures
            h.res().spec_name() == name,
            h.res().id_spec() == old(self).spec_counter() + 1,
            h.res().spec_attributes() == attributes@,
            (match index_buffer {
                Some(handle) => h.res().spec_index_buffer() == Some(handle.res()),
                None => h.res().spec_index_buffer() is None,
            }),
            final(self).spec_counter() == old(self).spec_counter() + 1,
            final(self).spec_vao_bound() == old(self).spec_counter() + 1,
            final(self).spec_vbo_bound() == crate::vertexarray::spec_setup_final_bound(
                attributes@,
                old(self).spec_vbo_bound(),
            ),
            final(self).spec_calls() == old(self).spec_calls() + (if old(self).spec_vao_bound()
                == old(self).spec_counter() + 1 {
                Seq::<DriverCall>::empty()
            } else {
                seq![DriverCall::BindVertexArray { name: name }]
            }) + crate::vertexarray::spec_setup_calls(attributes@, old(self).spec_vbo_bound()) + (
            match index_buffer {
                Some(handle) => seq![handle.res().bind_call_spec()],
                None => Seq::<DriverCall>::empty(),
            }),
            final(self).spec_ubo_bound() == old(self).spec_ubo_bound(),
            final(self).spec_program_bound() == old(self).spec_program_bound(),
            same_render_targets(*old(self), *final(self)),
            final(self).spec_info() == old(self).spec_info(),
    {
        let registration = self.registration_handle();
        let id = self.new_tracker_id();
        new_handle(VertexArray::new(self, id, name, attributes, index_buffer, registration))
    }

    /// Create a new vertex array object that reads every attribute from
    /// one vertex buffer, with the packed layout computed from the given
    /// (component count, scalar type, normalize flag) fields.
    pub fn new_vertex_array_simple(
        &mut self,
        attributes: &[LayoutField],
        vertex_buffer: VertexBufferHandle,
        index_buffer: Option<IndexBufferHandle>,
        name: u32,
    ) -> (h: VertexArrayHandle)
        requires
            old(self).spec_counter() < u32::MAX,
            attributes@.len() <= u32::MAX,
            crate::vertexarray::spec_packed_offset(attributes@, attributes@.len() as int)
                <= u32::MAX,
        ensures
            h.res().spec_name() == name,
            h.res().id_spec() == old(self).spec_counter() + 1,
            h.res().spec_attributes().len() == attributes@.len(),
            forall|i: int|
                0 <= i < attributes@.len() ==> {
                    let a = #[trigger] h.res().spec_attributes()[i];
                    &&& a.index == i
                    &&& a.size == attributes@[i].0
                    &&& a.attribute_type == attributes@[i].1
                    &&& a.normalized == attributes@[i].2
                    &&& a.offset == crate::vertexarray::spec_packed_offset(attributes@, i)
                    &&& a.stride == crate::vertexarray::spec_packed_offset(
                        attributes@,
                        attributes@.len() as int,
                    )
                    &&& a.vertex_buffer.res() == vertex_buffer.res()
                },
            (match index_buffer {
                Some(handle) => h.res().spec_index_buffer() == Some(handle.res()),
                None => h.res().spec_index_buffer() is None,
            }),
            final(self).spec_counter() == old(self).spec_counter() + 1,
            final(self).spec_vao_bound() == old(self).spec_counter() + 1,
            final(self).spec_calls() == old(self).spec_calls() + (if old(self).spec_vao_bound()
                == old(self).spec_counter() + 1 {
                Seq::<DriverCall>::empty()
            } else {
                seq![DriverCall::BindVertexArray { name: name }]
            }) + crate::vertexarray::spec_setup_calls(
                h.res().spec_attributes(),
                old(self).spec_vbo_bound(),
            ) + (match index_buffer {
                Some(handle) => seq![handle.res().bind_call_spec()],
                None => Seq::<DriverCall>::empty(),
            }),
            final(self).spec_ubo_bound() == old(self).spec_ubo_bound(),
            final(self).spec_program_bound() == old(self).spec_program_bound(),
            same_render_targets(*old(self), *final(self)),
            final(self).spec_info() == old(self).spec_info(),
    {
        let registration = self.registration_handle();
        let id = self.new_tracker_id();
        new_handle(
            VertexArray::new_single_vbo(
                self,
                id,
                name,
                attributes,
                vertex_buffer,
                index_buffer,
                registration,
            ),
        )
    }

    /// Create and compile a new shader object against the driver object
    /// named `name`, which must have been created for `shader_type`.
    pub fn new_shader(&mut self, shader_type: ShaderType, source: String, name: u32) -> (h:
        ShaderHandle)
        ensures
            h.res().spec_name() == name,
            h.res().spec_shader_type() == shader_type,
            final(self).spec_calls() == old(self).spec_calls().push(
                DriverCall::ShaderSource { shader: name, source: source },
            ).push(DriverCall::CompileShader { shader: name }),
            final(self).spec_counter() == old(self).spec_counter(),
            same_bindings(*old(self), *final(self)),
            final(self).spec_info() == old(self).spec_info(),
    {
        let registration = self.registration_handle();
        new_handle(Shader::new(shader_type, source, name, registration, &mut self.calls))
    }

    /// Create a program from the given shaders against the driver object
    /// named `name`: every shader is attached, then the program is linked.
    pub fn new_program(&mut self, shaders: &[ShaderHandle], name: u32) -> (h: ProgramHandle)
        requires
            old(self).spec_counter() < u32::MAX,
        ensures
            h.res().spec_name() == name,
            h.res().id_spec() == old(self).spec_counter() + 1,
            h.res().spec_shaders() == Seq::new(shaders@.len(), |i: int| shaders@[i].res()),
            final(self).spec_counter() == old(self).spec_counter() + 1,
            final(self).spec_calls() == old(self).spec_calls() + crate::program::spec_attach_calls(
                name,
                Seq::new(shaders@.len(), |i: int| shaders@[i].res()),
            ).push(DriverCall::LinkProgram { program: name }),
            same_bindings(*old(self), *final(self)),
            final(self).spec_info() == old(self).spec_info(),
    {
        let registration = self.registration_handle();
        let id = self.new_tracker_id();
        new_handle(Program::new(id, shaders, name, registration, &mut self.calls))
    }
}

} // verus!
