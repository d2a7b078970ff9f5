//! Cable identity. A cable is the logical connection owning exactly one
//! `In` plug and one `Out` plug; its identifier is assigned once by its
//! owner and is immutable for the cable's lifetime.

use vstd::prelude::*;

verus! {

/// Stable, opaque identifier of a cable.
#[derive(Debug, Clone, Copy, PartialEq, Eq, Hash, Structural)]
pub struct CableId {
    pub id: u64,
}

impl CableId {
    pub fn new(id: u64) -> (r: Self)
        ensures
            r == (CableId { id }),
    {
        CableId { id }
    }
}

} // verus!
