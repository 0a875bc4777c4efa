use vstd::prelude::*;

pub mod controller;
pub mod invocation;
pub mod supervisor;
pub mod text;

verus! {

} // verus!
