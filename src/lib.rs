use vstd::prelude::*;

pub mod bind_group;
pub mod buffers;
pub mod mesh;
pub mod state;
pub mod vertex;

verus! {

} // verus!
