use vstd::prelude::*;

verus! {

/// Which instant the orrery shows: the live clock, or one of the two fixed
/// test instants.
#[derive(Debug, Clone, Copy, PartialEq, Eq, Structural)]
pub enum TestMode {
    Live,
    SolarNoon,
    SolarMidnight,
}

impl Default for TestMode {
    fn default() -> (m: Self)
        ensures
            m == TestMode::Live,
    {
        TestMode::Live
    }
}

} // verus!
