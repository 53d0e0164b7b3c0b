use vstd::prelude::*;

verus! {

/// The entity system that will drive the particles; it holds no state yet.
#[derive(Debug, Clone, Copy, PartialEq, Eq, Structural)]
pub struct Metabolism {}

impl Metabolism {
    pub fn new() -> (m: Self)
        ensures
            m == (Metabolism {}),
    {
        Metabolism {}
    }
}

} // verus!
