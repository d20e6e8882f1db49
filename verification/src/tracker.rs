//! Client-side binding-state tracking.
//!
//! The driver keeps one "currently bound" resource per binding slot, and
//! re-binding the resource that is already bound is a redundant driver
//! call.  The trackers here remember what is bound, keyed by the library's
//! own never-reused identifiers rather than the driver's recyclable object
//! names, and append a bind call to the log only when the binding actually
//! changes.

use vstd::prelude::*;

use crate::driver::DriverCall;

verus! {

/// An identifier used by the binding trackers.
///
/// Identifiers are minted by [`TrackerIdGenerator`] and are never reused
/// within a context, unlike the driver's own object names.  The value `0`
/// is reserved to mean "nothing bound yet" and is never minted.
#[derive(Debug, Clone, Copy, PartialEq, Eq, Structural)]
pub struct TrackerId {
    id: u32,
}

impl TrackerId {
    /// The raw identifier value.
    pub closed spec fn spec_id(&self) -> u32 {
        self.id
    }

    /// The reserved identifier that compares unequal to every minted one.
    pub(crate) fn unbound() -> (r: TrackerId)
        ensures
            r.spec_id() == 0,
    {
        TrackerId { id: 0 }
    }

    /// Read the raw identifier value.
    pub fn value(&self) -> (r: u32)
        ensures
            r == self.spec_id(),
    {
        self.id
    }
}

/// Mints tracker identifiers, each strictly greater than every identifier
/// minted before it by this generator.  This sidesteps the hazard of the
/// driver recycling object names: a tracker comparing recycled names could
/// mistake a fresh resource for one that is already bound.
pub struct TrackerIdGenerator {
    counter: u32,
}

impl TrackerIdGenerator {
    /// How many identifiers this generator has minted so far.
    pub closed spec fn spec_counter(&self) -> u32 {
        self.counter
    }

    /// Construct a generator that has minted nothing yet.
    pub fn new() -> (r: TrackerIdGenerator)
        ensures
            r.spec_counter() == 0,
    {
        TrackerIdGenerator { counter: 0 }
    }

    /// Read how many identifiers have been minted.  Callers consult
    /// this before minting: running out of the 32-bit range is an
    /// unrecoverable condition, so `new_id` refuses to wrap around.
    pub fn count(&self) -> (r: u32)
        ensures
            r == self.spec_counter(),
    {
        self.counter
    }

    /// Mint a fresh identifier, strictly greater than all minted before.
    ///
    /// Running a 32-bit context out of identifiers is treated as an
    /// unrecoverable condition, so the caller must rule it out.
    pub fn new_id(&mut self) -> (r: TrackerId)
        requires
            old(self).spec_counter() < u32::MAX,
        ensures
            final(self).spec_counter() == old(self).spec_counter() + 1,
            r.spec_id() == old(self).spec_counter() + 1,
    {
        self.counter = self.counter + 1;
        TrackerId { id: self.counter }
    }
}

/// The identifier returned by the `k`-th `new_id` call (counting from 0)
/// made on a generator whose counter stood at `start`, as fixed by the
/// contract of [`TrackerIdGenerator::new_id`].
pub open spec fn minted_id(start: u32, k: nat) -> int {
    start + k + 1
}

/// Identifiers minted later are strictly greater, so any number of draws
/// from one generator yields pairwise distinct, strictly increasing values.
pub proof fn lemma_ids_strictly_increasing(start: u32, i: nat, j: nat)
    requires
        i < j,
    ensures
        minted_id(start, i) < minted_id(start, j),
        minted_id(start, i) != minted_id(start, j),
{
}

/// The identifier-uniqueness law over a whole run: the sequence of the
/// first `n` identifiers a generator mints is strictly increasing, and
/// therefore holds `n` pairwise distinct values.
pub proof fn lemma_minted_ids_distinct(start: u32, n: nat)
    ensures
        ({
            let ids = Seq::new(n, |k: int| minted_id(start, k as nat));
            &&& ids.len() == n
            &&& forall|i: int, j: int| 0 <= i < j < n ==> ids[i] < ids[j]
            &&& forall|i: int, j: int| 0 <= i < j < n ==> ids[i] != ids[j]
        }),
{
}

/// Implemented by every resource a binding tracker can manage: the resource
/// knows its tracker identifier and which driver call binds it.
pub trait Bind: Sized {
    /// The resource's tracker identifier.
    spec fn id_spec(&self) -> u32;

    /// The driver call that makes this resource the bound one for its slot.
    spec fn bind_call_spec(&self) -> DriverCall;

    /// Return the resource's tracker identifier.
    fn get_id(&self) -> (r: TrackerId)
        ensures
            r.spec_id() == self.id_spec(),
    ;

    /// Produce the driver call that binds this resource.
    fn bind_call(&self) -> (c: DriverCall)
        ensures
            c == self.bind_call_spec(),
    ;
}

/// One step of a tracker: what the bound identifier and the call log become
/// when a resource with identifier `id` (bound by `call`) is bound while
/// `bound` is the currently bound identifier.
pub open spec fn bind_step(bound: u32, id: u32, call: DriverCall, log: Seq<DriverCall>) -> (
    u32,
    Seq<DriverCall>,
) {
    if bound == id {
        (bound, log)
    } else {
        (id, log.push(call))
    }
}

/// Remembers which resource is currently bound for one binding slot and
/// appends the underlying bind call only when the binding changes.
pub struct SimpleBindingTracker<R: Bind> {
    currently_bound: TrackerId,
    marker: core::marker::PhantomData<R>,
}

impl<R: Bind> SimpleBindingTracker<R> {
    /// The identifier of the currently bound resource, `0` if none.
    pub closed spec fn bound_id(&self) -> u32 {
        self.currently_bound.id
    }

    /// Construct a tracker with nothing bound.
    pub fn new() -> (r: SimpleBindingTracker<R>)
        ensures
            r.bound_id() == 0,
    {
        SimpleBindingTracker { currently_bound: TrackerId::unbound(), marker: core::marker::PhantomData }
    }

    /// Bind `resource`, or append nothing if it is already bound.
    pub fn bind(&mut self, resource: &R, log: &mut Vec<DriverCall>)
        ensures
            (final(self).bound_id(), final(log)@) == bind_step(
                old(self).bound_id(),
                resource.id_spec(),
                resource.bind_call_spec(),
                old(log)@,
            ),
            final(self).bound_id() == resource.id_spec(),
    {
        let id = resource.get_id();
        if self.currently_bound.value() != id.value() {
            log.push(resource.bind_call());
            self.currently_bound = id;
        }
    }
}

/// Binding the same resource twice in a row appends the underlying bind
/// call exactly once: the second step changes neither the log nor the
/// bound identifier.
pub proof fn lemma_bind_idempotent(bound0: u32, id: u32, call: DriverCall, log0: Seq<DriverCall>)
    ensures
        ({
            let (bound1, log1) = bind_step(bound0, id, call, log0);
            let (bound2, log2) = bind_step(bound1, id, call, log1);
            &&& bound2 == bound1
            &&& log2 == log1
            &&& (bound0 != id ==> log1 == log0.push(call))
            &&& (bound0 == id ==> log1 == log0)
        }),
{
}

/// Switching away and back always re-binds: with `a` bound first, binding
/// `b` and then `a` again appends three underlying bind calls in all, never
/// fewer.
pub proof fn lemma_rebind_after_switch(
    bound0: u32,
    a_id: u32,
    a_call: DriverCall,
    b_id: u32,
    b_call: DriverCall,
    log0: Seq<DriverCall>,
)
    requires
        bound0 != a_id,
        a_id != b_id,
    ensures
        ({
            let (bound1, log1) = bind_step(bound0, a_id, a_call, log0);
            let (bound2, log2) = bind_step(bound1, b_id, b_call, log1);
            let (bound3, log3) = bind_step(bound2, a_id, a_call, log2);
            &&& bound3 == a_id
            &&& log3 == log0.push(a_call).push(b_call).push(a_call)
            &&& log3.len() == log0.len() + 3
        }),
{
}

/// A tracker that additionally remembers the resource most recently bound
/// *for rendering*, so that it can be re-bound after other resources were
/// bound temporarily for editing.  The remembered resource is kept alive by
/// a shared reference and re-bound just before drawing.
pub struct RenderBindingTracker<R: Bind> {
    simple_tracker: SimpleBindingTracker<R>,
    bound_for_rendering: Option<std::rc::Rc<R>>,
}

impl<R: Bind> RenderBindingTracker<R> {
    /// The identifier of the currently bound resource, `0` if none.
    pub closed spec fn bound_id(&self) -> u32 {
        self.simple_tracker.bound_id()
    }

    /// The identifier of the remembered render-time resource, if any.
    pub closed spec fn render_target_id(&self) -> Option<u32> {
        match self.bound_for_rendering {
            Some(resource) => Some(resource.id_spec()),
            None => None,
        }
    }

    /// The bind call of the remembered render-time resource, if any.
    pub closed spec fn render_target_call(&self) -> Option<DriverCall> {
        match self.bound_for_rendering {
            Some(resource) => Some(resource.bind_call_spec()),
            None => None,
        }
    }

    /// Construct a tracker with nothing bound and nothing remembered.
    pub fn new() -> (r: RenderBindingTracker<R>)
        ensures
            r.bound_id() == 0,
            r.render_target_id() is None,
    {
        RenderBindingTracker { simple_tracker: SimpleBindingTracker::new(), bound_for_rendering: None }
    }

    /// Bind `resource` for editing; the remembered render-time resource is
    /// left as it is.
    pub fn bind_for_editing(&mut self, resource: &R, log: &mut Vec<DriverCall>)
        ensures
            (final(self).bound_id(), final(log)@) == bind_step(
                old(self).bound_id(),
                resource.id_spec(),
                resource.bind_call_spec(),
                old(log)@,
            ),
            final(self).render_target_id() == old(self).render_target_id(),
            final(self).render_target_call() == old(self).render_target_call(),
    {
        self.simple_tracker.bind(resource, log);
    }

    /// Bind `resource` for rendering and remember it as the resource that
    /// must be active again when drawing resumes.
    pub fn bind_for_rendering(&mut self, resource: &std::rc::Rc<R>, log: &mut Vec<DriverCall>)
        ensures
            (final(self).bound_id(), final(log)@) == bind_step(
                old(self).bound_id(),
                resource.id_spec(),
                resource.bind_call_spec(),
                old(log)@,
            ),
            final(self).render_target_id() == Some(resource.id_spec()),
            final(self).render_target_call() == Some(resource.bind_call_spec()),
    {
        self.simple_tracker.bind(&**resource, log);
        self.bound_for_rendering = Some(resource.clone());
    }

    /// If a resource was bound for rendering earlier, bind it again (unless
    /// it is still bound), even if another resource was bound for editing
    /// in between.  With nothing remembered this appends nothing.
    pub fn restore_rendering_state(&mut self, log: &mut Vec<DriverCall>)
        ensures
            final(self).render_target_id() == old(self).render_target_id(),
            final(self).render_target_call() == old(self).render_target_call(),
            match (old(self).render_target_id(), old(self).render_target_call()) {
                (Some(id), Some(call)) => (final(self).bound_id(), final(log)@) == bind_step(
                    old(self).bound_id(),
                    id,
                    call,
                    old(log)@,
                ),
                _ => final(self).bound_id() == old(self).bound_id() && final(log)@ == old(log)@,
            },
    {
        match &self.bound_for_rendering {
            Some(resource) => {
                self.simple_tracker.bind(&**resource, log);
            },
            None => {},
        }
    }
}

/// The render-restore property: after binding `a` for rendering and then
/// binding a different resource `b` for editing, restoring the rendering
/// state makes `a` the bound resource again and appends exactly one more
/// underlying bind call — `a`'s, not another one for `b`.
pub proof fn lemma_restore_rebinds_render_target(
    bound0: u32,
    a_id: u32,
    a_call: DriverCall,
    b_id: u32,
    b_call: DriverCall,
    log0: Seq<DriverCall>,
)
    requires
        a_id != b_id,
    ensures
        ({
            let (bound1, log1) = bind_step(bound0, a_id, a_call, log0);
            let (bound2, log2) = bind_step(bound1, b_id, b_call, log1);
            let (bound3, log3) = bind_step(bound2, a_id, a_call, log2);
            &&& bound3 == a_id
            &&& log3 == log2.push(a_call)
            &&& log3.len() == log2.len() + 1
        }),
{
}

} // verus!
