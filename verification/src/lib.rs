pub mod clock;
pub mod query;
pub mod sampler;
pub mod stats;
pub mod store;

use vstd::prelude::*;

verus! {

/// One stored measurement: a unix timestamp keyed record holding the
/// temperature and humidity as quantized integers (value times four,
/// rounded to the nearest integer, giving 0.25 resolution).
#[derive(Clone, Copy, Debug, PartialEq, Eq, Structural)]
pub struct Reading {
    pub timestamp: i64,
    pub temperature_q: i64,
    pub humidity_q: i64,
}

} // verus!
