use vstd::prelude::*;

pub mod murmur;
pub mod partition;

verus! {

} // verus!
