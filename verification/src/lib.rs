//! Host-side core of the Cues Mantle runtime: the metered JavaScript
//! conduction state, the shared substrate layout, the script interceptor and
//! the solar alignment decisions, each with its contract.
pub mod conduction;
pub mod mantle_core;
pub mod metabolism;
pub mod orrery;
pub mod substrate;

use vstd::prelude::*;

verus! {

/// Unix time in milliseconds of the network genesis: the March equinox of
/// 2026, 14:46 UTC, which is local solar noon at longitude 41.5° W.
pub const NETWORK_GENESIS_MS: i64 = 1774017960000;

} // verus!
