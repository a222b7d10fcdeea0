use vstd::prelude::*;

pub mod launch;
pub mod supervisor;

verus! {

} // verus!
