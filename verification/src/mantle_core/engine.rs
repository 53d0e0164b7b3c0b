use vstd::prelude::*;

verus! {

/// Which instant the engine shows: the live clock, or one of the two fixed
/// test instants.
#[derive(Debug, Clone, Copy, PartialEq, Eq, Structural)]
pub enum TestMode {
    Live,
    SolarNoon,
    SolarMidnight,
}

impl Default for TestMode {
    fn default() -> (m: Self)
        ensures
            m == TestMode::Live,
    {
        TestMode::Live
    }
}

/// Some argument is exactly `flag`.
pub open spec fn has_flag(args: Seq<String>, flag: Seq<char>) -> bool {
    exists|i: int| 0 <= i < args.len() && #[trigger] args[i]@ == flag
}

/// The mode the command line asks for: solar noon when some argument is
/// `--test-solar-noon`, else solar midnight when some argument is
/// `--test-solar-midnight`, else the live clock.
pub open spec fn mode_for_args(args: Seq<String>) -> TestMode {
    if has_flag(args, "--test-solar-noon"@) {
        TestMode::SolarNoon
    } else if has_flag(args, "--test-solar-midnight"@) {
        TestMode::SolarMidnight
    } else {
        TestMode::Live
    }
}

/// Whether some element of `args` equals `flag`.
fn any_arg_is(args: &Vec<String>, flag: &String) -> (b: bool)
    ensures
        b == has_flag(args@, flag@),
{
    let mut i: usize = 0;
    while i < args.len()
        invariant
            i <= args@.len(),
            forall|j: int| 0 <= j < i ==> args@[j]@ != flag@,
        decreases args@.len() - i,
    {
        if args[i] == *flag {
            return true;
        }
        i = i + 1;
    }
    false
}

impl TestMode {
    /// The mode that the program's command-line arguments select.
    pub fn from_args(args: &Vec<String>) -> (m: TestMode)
        ensures
            m == mode_for_args(args@),
    {
        broadcast use vstd::string::group_string_axioms;
        let noon = "--test-solar-noon".to_string();
        let midnight = "--test-solar-midnight".to_string();
        if any_arg_is(args, &noon) {
            TestMode::SolarNoon
        } else if any_arg_is(args, &midnight) {
            TestMode::SolarMidnight
        } else {
            TestMode::Live
        }
    }
}

} // verus!

verus! {

/// The noon flag selects solar noon wherever it stands among the arguments.
pub proof fn lemma_noon_flag_anywhere(args: Seq<String>, i: int)
    requires
        0 <= i < args.len(),
        args[i]@ == "--test-solar-noon"@,
    ensures
        mode_for_args(args) == TestMode::SolarNoon,
{
    assert(has_flag(args, "--test-solar-noon"@));
}

/// Without the noon flag, the midnight flag selects solar midnight wherever
/// it stands among the arguments.
pub proof fn lemma_midnight_flag_anywhere(args: Seq<String>, i: int)
    requires
        0 <= i < args.len(),
        args[i]@ == "--test-solar-midnight"@,
        forall|j: int| 0 <= j < args.len() ==> args[j]@ != "--test-solar-noon"@,
    ensures
        mode_for_args(args) == TestMode::SolarMidnight,
{
    assert(has_flag(args, "--test-solar-midnight"@));
}

/// With neither flag among the arguments the live clock is shown.
pub proof fn lemma_no_flag_live(args: Seq<String>)
    requires
        forall|j: int|
            0 <= j < args.len() ==> args[j]@ != "--test-solar-noon"@ && args[j]@
                != "--test-solar-midnight"@,
    ensures
        mode_for_args(args) == TestMode::Live,
{
}

} // verus!
