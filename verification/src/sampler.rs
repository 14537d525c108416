//! The decisions of the sampling loop: what one ingestion attempt does to
//! the store, and how long to pause before the next cycle. The loop itself
//! — reading the sensor, quantizing, sleeping — is driven from outside,
//! with these rules.
use vstd::prelude::*;

use crate::store::{stored_readings, Store, StoreError};
use crate::Reading;

verus! {

/// What one ingestion attempt did to the store.
#[derive(Clone, Copy, Debug, PartialEq, Eq, Structural)]
pub enum SampleOutcome {
    /// The reading was appended.
    Stored,
    /// A reading with this timestamp was already stored; the sample is
    /// dropped, the stored one is left intact.
    SkippedDuplicate,
    /// Another storage failure; nothing was stored.
    Failed,
}

/// Append one sample to the store. A duplicate timestamp is a skipped
/// sample, never a fault of the loop, and leaves the stored reading
/// intact; nothing but a successful append changes the store.
pub fn record_sample(store: &mut Store, reading: Reading) -> (out: SampleOutcome)
    ensures
        out == SampleOutcome::Stored ==> {
            &&& !stored_readings(*old(store)).dom().contains(reading.timestamp as int)
            &&& stored_readings(*final(store)) == stored_readings(*old(store)).insert(
                reading.timestamp as int,
                (reading.temperature_q as int, reading.humidity_q as int),
            )
        },
        out == SampleOutcome::SkippedDuplicate ==> stored_readings(*old(store)).dom().contains(
            reading.timestamp as int,
        ),
        out != SampleOutcome::Stored ==> stored_readings(*final(store)) == stored_readings(
            *old(store),
        ),
{
    match store.insert(reading) {
        Ok(()) => SampleOutcome::Stored,
        Err(StoreError::DuplicateTimestamp) => SampleOutcome::SkippedDuplicate,
        Err(_) => SampleOutcome::Failed,
    }
}

/// Drift compensation: the pause before the next cycle is the configured
/// interval minus the time the cycle already took, and never negative. A
/// cycle that ran over the interval is followed immediately, not skipped.
pub fn pause_millis(interval_millis: u64, elapsed_millis: u64) -> (r: u64)
    ensures
        elapsed_millis >= interval_millis ==> r == 0,
        elapsed_millis < interval_millis ==> r == interval_millis - elapsed_millis,
{
    if elapsed_millis >= interval_millis {
        0
    } else {
        interval_millis - elapsed_millis
    }
}

} // verus!
