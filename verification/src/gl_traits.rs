//! The two capabilities that every wrapper of a driver resource has: it can
//! be made the current resource of its kind, and it can be released.

use vstd::prelude::*;
use crate::gl_driver::DriverCall;

verus! {

/// A resource that the driver can hold as the current one of its kind. The
/// driver has a single slot for each kind of resource, so making one resource
/// current ends the turn of the one before it.
pub trait Bindable {
    /// The request that makes this resource the current one.
    spec fn bind_request(&self) -> DriverCall;

    /// The request that leaves no resource of this kind current.
    spec fn unbind_request(&self) -> DriverCall;

    /// Whether a driver that answers `current` when asked for the current
    /// resource of this kind holds this resource.
    spec fn bound_when(&self, current: i32) -> bool;

    /// Hands out the request that makes this resource the current one.
    fn bind(&mut self) -> (call: DriverCall)
        ensures
            call == old(self).bind_request(),
    ;

    /// Hands out the request that leaves no resource of this kind current.
    fn unbind(&mut self) -> (call: DriverCall)
        ensures
            call == old(self).unbind_request(),
    ;

    /// Compares the driver's answer to a query for the current resource of
    /// this kind with this resource.
    fn is_bound(&self, current: i32) -> (bound: bool)
        ensures
            bound == self.bound_when(current),
    ;
}

/// A resource whose handle can be given back to the driver. The handle is
/// given back once: the first `delete` hands out the request and forgets the
/// handle, and every later one finds nothing to do.
pub trait Deletable: Sized {
    /// The handle has been given back, or none was ever held.
    spec fn is_deleted(&self) -> bool;

    /// The request that gives the handle back.
    spec fn delete_request(&self) -> DriverCall;

    /// Forgets the handle, and hands out the request that releases it if
    /// there was one to release.
    fn delete(&mut self) -> (call: Option<DriverCall>)
        ensures
            final(self).is_deleted(),
            old(self).is_deleted() ==> call.is_none() && *final(self) == *old(self),
            !old(self).is_deleted() ==> call == Some(old(self).delete_request()),
    ;
}

/// What `delete` promises, as a relation between the resource `before` the
/// call, the resource `after` it, and the request that was handed out.
/// Afterwards the handle is gone. A resource that still held its handle hands
/// out the request that releases it; one that did not hands out nothing and
/// stays as it was.
pub open spec fn deletes<T: Deletable>(before: T, after: T, call: Option<DriverCall>) -> bool {
    &&& after.is_deleted()
    &&& before.is_deleted() ==> call.is_none() && after == before
    &&& !before.is_deleted() ==> call == Some(before.delete_request())
}

/// The handle is given back exactly once: of two calls of `delete` in a row,
/// the second hands out no request and changes nothing, whatever the first
/// found.
pub proof fn lemma_delete_twice<T: Deletable>(
    start: T,
    once: T,
    twice: T,
    first: Option<DriverCall>,
    second: Option<DriverCall>,
)
    requires
        deletes(start, once, first),
        deletes(once, twice, second),
    ensures
        second.is_none(),
        twice == once,
        first.is_some() <==> !start.is_deleted(),
{
}

} // verus!
