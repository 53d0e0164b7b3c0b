use vstd::prelude::*;
use crate::orrery::hub::TestMode;
use crate::NETWORK_GENESIS_MS;

verus! {

/// Milliseconds in half a day: solar midnight follows solar noon by this much.
pub const HALF_DAY_MS: i64 = 43200000;

/// Milliseconds since the Unix epoch of the system clock: std's
/// `SystemTime::now`, turned into chrono's `DateTime<Utc>` by its
/// `From<SystemTime>` impl (which counts a clock set before 1970 as a
/// negative time rather than failing; it fails only for a clock outside
/// chrono's range of about 262,000 years either side of the epoch) and read
/// with `timestamp_millis`. Nothing is stated of the result: it is whatever
/// the clock reads.
#[verifier::external_body]
fn now_unix_ms() -> i64 {
    chrono::DateTime::<chrono::Utc>::from(std::time::SystemTime::now()).timestamp_millis()
}

/// Decisions that turn the solar model's readings into the status line.
pub struct HeliAlignment;

impl HeliAlignment {
    /// The instant, in Unix milliseconds, whose sky is shown when the clock
    /// reads `clock_ms`: the genesis (solar noon) or half a day after it
    /// (solar midnight) in the test modes, the clock reading otherwise.
    pub open spec fn spec_instant(test_mode: TestMode, clock_ms: i64) -> int {
        match test_mode {
            TestMode::SolarNoon => NETWORK_GENESIS_MS as int,
            TestMode::SolarMidnight => NETWORK_GENESIS_MS + HALF_DAY_MS,
            TestMode::Live => clock_ms as int,
        }
    }

    /// The instant whose sky is shown in `test_mode` when the clock reads
    /// `clock_ms`.
    pub fn instant_for(test_mode: TestMode, clock_ms: i64) -> (ms: i64)
        ensures
            ms == Self::spec_instant(test_mode, clock_ms),
    {
        match test_mode {
            TestMode::SolarNoon => NETWORK_GENESIS_MS,
            TestMode::SolarMidnight => NETWORK_GENESIS_MS + HALF_DAY_MS,
            TestMode::Live => clock_ms,
        }
    }

    /// The instant, in Unix milliseconds, whose sky is shown now: the system
    /// clock is read in the live mode only, and `instant_for` decides.
    pub fn observation_ms(test_mode: TestMode) -> (ms: i64)
        ensures
            test_mode == TestMode::SolarNoon ==> ms == NETWORK_GENESIS_MS,
            test_mode == TestMode::SolarMidnight ==> ms == NETWORK_GENESIS_MS + HALF_DAY_MS,
            exists|clock_ms: i64| ms == Self::spec_instant(test_mode, clock_ms),
    {
        let clock_ms: i64 = if test_mode == TestMode::Live {
            now_unix_ms()
        } else {
            0
        };
        Self::instant_for(test_mode, clock_ms)
    }

    /// The last field of the status line: the test marker in a test mode,
    /// otherwise whether the sun is up at the truth meridian.
    pub fn phase_label(test_mode: TestMode, is_day: bool) -> (label: &'static str)
        ensures
            test_mode != TestMode::Live ==> label@ == "TEST MODE"@,
            test_mode == TestMode::Live && is_day ==> label@ == "Day (Truth)"@,
            test_mode == TestMode::Live && !is_day ==> label@ == "Night (Truth)"@,
    {
        if test_mode != TestMode::Live {
            "TEST MODE"
        } else if is_day {
            "Day (Truth)"
        } else {
            "Night (Truth)"
        }
    }
}

} // verus!
