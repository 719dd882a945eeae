use vstd::prelude::*;

pub mod backend;
pub mod convert;
pub mod pipeline;
pub mod session;

verus! {

} // verus!
