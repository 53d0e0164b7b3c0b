use cues_mantle::mantle_core::engine;
use cues_mantle::orrery::alignment::{HeliAlignment, HALF_DAY_MS};
use cues_mantle::orrery::hub::TestMode;
use cues_mantle::NETWORK_GENESIS_MS;

#[test]
fn test_instants_are_fixed() {
    assert_eq!(HeliAlignment::observation_ms(TestMode::SolarNoon), NETWORK_GENESIS_MS);
    assert_eq!(
        HeliAlignment::observation_ms(TestMode::SolarMidnight),
        NETWORK_GENESIS_MS + 12 * 3600 * 1000
    );
    assert_eq!(HALF_DAY_MS, 43_200_000);
    assert_eq!(NETWORK_GENESIS_MS, 1_774_017_960_000);
}

#[test]
fn live_instant_is_the_clock() {
    let before = std::time::SystemTime::now()
        .duration_since(std::time::UNIX_EPOCH)
        .unwrap()
        .as_millis() as i64;
    let ms = HeliAlignment::observation_ms(TestMode::Live);
    let after = std::time::SystemTime::now()
        .duration_since(std::time::UNIX_EPOCH)
        .unwrap()
        .as_millis() as i64;
    assert!(before <= ms && ms <= after);
}

#[test]
fn phase_labels() {
    assert_eq!(HeliAlignment::phase_label(TestMode::SolarNoon, false), "TEST MODE");
    assert_eq!(HeliAlignment::phase_label(TestMode::SolarMidnight, true), "TEST MODE");
    assert_eq!(HeliAlignment::phase_label(TestMode::Live, true), "Day (Truth)");
    assert_eq!(HeliAlignment::phase_label(TestMode::Live, false), "Night (Truth)");
}

#[test]
fn default_modes_are_live() {
    assert_eq!(TestMode::default(), TestMode::Live);
    assert_eq!(engine::TestMode::default(), engine::TestMode::Live);
}

#[test]
fn command_line_selects_mode() {
    let args = |v: &[&str]| v.iter().map(|s| s.to_string()).collect::<Vec<String>>();
    assert_eq!(engine::TestMode::from_args(&args(&["prog"])), engine::TestMode::Live);
    assert_eq!(
        engine::TestMode::from_args(&args(&["prog", "--test-solar-noon"])),
        engine::TestMode::SolarNoon
    );
    assert_eq!(
        engine::TestMode::from_args(&args(&["prog", "--test-solar-midnight"])),
        engine::TestMode::SolarMidnight
    );
    assert_eq!(
        engine::TestMode::from_args(&args(&["--test-solar-midnight", "x", "--test-solar-noon"])),
        engine::TestMode::SolarNoon
    );
    assert_eq!(
        engine::TestMode::from_args(&args(&["--test-solar-noon-extra"])),
        engine::TestMode::Live
    );
    assert_eq!(engine::TestMode::from_args(&Vec::new()), engine::TestMode::Live);
}

#[test]
fn instant_for_each_mode() {
    assert_eq!(HeliAlignment::instant_for(TestMode::Live, 123), 123);
    assert_eq!(HeliAlignment::instant_for(TestMode::Live, -5), -5);
    assert_eq!(HeliAlignment::instant_for(TestMode::SolarNoon, 123), NETWORK_GENESIS_MS);
    assert_eq!(
        HeliAlignment::instant_for(TestMode::SolarMidnight, 123),
        NETWORK_GENESIS_MS + HALF_DAY_MS
    );
}
