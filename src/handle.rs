use vstd::prelude::*;

verus! {

/// An opaque reference handed out by the runtime, held as its address.
/// Address zero is the null reference. No arithmetic is offered on it.
#[derive(Clone, Copy, Debug, PartialEq, Eq, Structural)]
pub struct RawRef {
    pub addr: u64,
}

impl RawRef {
    pub open spec fn null_spec(&self) -> bool {
        self.addr == 0
    }

    pub fn null() -> (r: RawRef)
        ensures
            r.null_spec(),
    {
        RawRef { addr: 0 }
    }

    pub fn from_addr(addr: u64) -> (r: RawRef)
        ensures
            r.addr == addr,
    {
        RawRef { addr }
    }

    #[verifier::when_used_as_spec(null_spec)]
    pub fn is_null(&self) -> (r: bool)
        ensures
            r == self.null_spec(),
    {
        self.addr == 0
    }
}

} // verus!
