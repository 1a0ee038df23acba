use vstd::prelude::*;

pub mod class;
pub mod handle;
pub mod text;
pub mod status;
pub mod value;
pub mod protocol;
pub mod runtime;
pub mod lifecycle;
pub mod object;
pub mod environment;
pub mod invocation;
pub mod string;

verus! {

} // verus!
