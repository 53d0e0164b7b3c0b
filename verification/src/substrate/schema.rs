use vstd::prelude::*;

verus! {

/// The named `f32` slots at the start of the shared substrate buffer.
#[derive(Clone, Copy, PartialEq, Eq, Structural, Debug)]
pub enum SubstrateSlot {
    ClearColorR,
    ClearColorG,
    ClearColorB,
    ClearColorA,
    LogoOriginX,
    LogoOriginY,
    LogoScaleW,
    LogoScaleH,
}

/// Number of named slots.
pub const SLOT_COUNT: usize = 8;

impl SubstrateSlot {
    /// The position of the slot among the `f32` words of the substrate.
    pub open spec fn spec_index(self) -> nat {
        match self {
            SubstrateSlot::ClearColorR => 0,
            SubstrateSlot::ClearColorG => 1,
            SubstrateSlot::ClearColorB => 2,
            SubstrateSlot::ClearColorA => 3,
            SubstrateSlot::LogoOriginX => 4,
            SubstrateSlot::LogoOriginY => 5,
            SubstrateSlot::LogoScaleW => 6,
            SubstrateSlot::LogoScaleH => 7,
        }
    }

    pub fn index(&self) -> (i: usize)
        ensures
            i == self.spec_index(),
            i < SLOT_COUNT,
    {
        match self {
            SubstrateSlot::ClearColorR => 0,
            SubstrateSlot::ClearColorG => 1,
            SubstrateSlot::ClearColorB => 2,
            SubstrateSlot::ClearColorA => 3,
            SubstrateSlot::LogoOriginX => 4,
            SubstrateSlot::LogoOriginY => 5,
            SubstrateSlot::LogoScaleW => 6,
            SubstrateSlot::LogoScaleH => 7,
        }
    }
}

} // verus!

verus! {

/// Distinct slots have distinct indices, and every slot's four bytes lie
/// inside the substrate buffer.
pub proof fn lemma_slots_disjoint_and_inside(a: SubstrateSlot, b: SubstrateSlot)
    ensures
        a.spec_index() == b.spec_index() ==> a == b,
        4 * a.spec_index() + 4 <= crate::substrate::buffer::SUBSTRATE_SIZE,
{
}

} // verus!
