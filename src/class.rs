use vstd::prelude::*;

use crate::handle::RawRef;
use crate::protocol::Request;

verus! {

/// A resolved type, held through one durable reference that this value owns.
#[derive(Debug)]
pub struct Class {
    handle: RawRef,
}

impl View for Class {
    type V = RawRef;

    closed spec fn view(&self) -> RawRef {
        self.handle
    }
}

impl Class {
    #[verifier::type_invariant]
    spec fn inv(&self) -> bool {
        self.handle.addr != 0
    }

    /// Takes ownership of a durable reference to a type.
    pub fn from_durable(handle: RawRef) -> (c: Class)
        requires
            handle.addr != 0,
        ensures
            c@ == handle,
    {
        Class { handle }
    }

    pub fn as_handle(&self) -> (r: RawRef)
        ensures
            r == self@,
            r.addr != 0,
    {
        proof {
            use_type_invariant(self);
        }
        self.handle
    }

    /// The request that releases the type's durable reference.
    pub fn release(self) -> (r: Request)
        ensures
            r == Request::DeleteGlobalRef(self@),
    {
        Request::DeleteGlobalRef(self.handle)
    }
}

/// A resolved method, as handed out by a method lookup. It is passed to
/// calls and has no behaviour of its own.
#[derive(Clone, Copy, Debug, PartialEq, Eq, Structural)]
pub struct Method {
    pub handle: RawRef,
}

impl Method {
    pub fn from_handle(handle: RawRef) -> (m: Method)
        ensures
            m.handle == handle,
    {
        Method { handle }
    }

    pub fn as_handle(&self) -> (r: RawRef)
        ensures
            r == self.handle,
    {
        self.handle
    }
}

} // verus!
