//! The user-facing representation of driver resources.
//!
//! A handle is a wrapped, reference-counted pointer: cloning it extends the
//! resource's lifetime, because composite resources (a vertex array and its
//! index buffer, a program and its shaders) need a referenced resource to
//! live at least as long as anything that depends on it.

use std::rc::Rc;

use vstd::prelude::*;

verus! {

/// A shared owner of a resource of type `T`.
///
/// The handle deliberately offers no dereference: the resource is reached
/// through [`HandleAccess::access`], which keeps the surface through which
/// resources are touched small and explicit.
pub struct Handle<T> {
    resource: Rc<T>,
}

/// The resource a handle owns, as a specification-level value.
impl<T> Handle<T> {
    pub closed spec fn res(&self) -> T {
        *self.resource
    }

    /// Take the resource out of the handle, if this is the last owner.
    ///
    /// Returns `None` when other handles to the same resource are still
    /// alive; the resource then stays shared and untouched.
    pub fn into_resource(self) -> (r: Option<T>)
        ensures
            r matches Some(resource) ==> resource == self.res(),
    {
        Rc::into_inner(self.resource)
    }
}

/// Construct a new handle, taking ownership of a resource.
pub fn new_handle<T>(resource: T) -> (h: Handle<T>)
    ensures
        h.res() == resource,
{
    Handle { resource: Rc::new(resource) }
}

impl<T> Clone for Handle<T> {
    /// Cloning a handle shares the resource; it clones the pointer, never
    /// the resource itself.
    fn clone(&self) -> (r: Self)
        ensures
            r == *self,
            r.res() == self.res(),
    {
        Handle { resource: self.resource.clone() }
    }
}

/// Access to a handle's resource.
pub trait HandleAccess<T> {
    /// The owned resource, for specifications.
    spec fn res_spec(&self) -> T;

    /// Borrow the owned resource.
    fn access(&self) -> (r: &T)
        ensures
            *r == self.res_spec(),
    ;

    /// Borrow the shared pointer itself.
    fn rc(&self) -> (r: &Rc<T>)
        ensures
            **r == self.res_spec(),
    ;
}

impl<T> HandleAccess<T> for Handle<T> {
    open spec fn res_spec(&self) -> T {
        self.res()
    }

    fn access(&self) -> (r: &T)
        ensures
            *r == self.res_spec(),
    {
        &*self.resource
    }

    fn rc(&self) -> (r: &Rc<T>)
        ensures
            **r == self.res_spec(),
    {
        &self.resource
    }
}

} // verus!
