//! Pure decisions taken by the live sampler.
//!
//! Reading the operating system (CPU usage, frequencies, memory) is I/O and
//! happens outside the library; what the sampler decides from those readings
//! stands here: the reported frequency and the snapshot timestamp.

use std::time::{Duration, SystemTime, SystemTimeError, UNIX_EPOCH};
use vstd::prelude::*;

verus! {

/// Highest per-core frequency in MHz, or `None` when the slice is empty or every
/// core reports `0` (i.e. the platform did not supply a frequency).
pub fn max_freq_mhz(per_core: &[u64]) -> (r: Option<u64>)
    ensures
        r is None <==> (forall|i: int| 0 <= i < per_core@.len() ==> per_core@[i] == 0),
        r matches Some(m) ==> {
            &&& m > 0
            &&& exists|i: int| 0 <= i < per_core@.len() && per_core@[i] == m
            &&& forall|i: int| 0 <= i < per_core@.len() ==> per_core@[i] <= m
        },
{
    let mut best: u64 = 0;
    let mut i: usize = 0;
    while i < per_core.len()
        invariant
            i <= per_core@.len(),
            forall|j: int| 0 <= j < i ==> per_core@[j] <= best,
            best == 0 || exists|j: int| 0 <= j < i && per_core@[j] == best,
        decreases per_core@.len() - i,
    {
        if per_core[i] > best {
            best = per_core[i];
        }
        i = i + 1;
    }
    if best > 0 {
        Some(best)
    } else {
        None
    }
}

/// The clock reading a wrapper hands out: opaque, it is only carried from one
/// call to the next.
#[verifier::external_type_specification]
#[verifier::external_body]
pub struct ExSystemTime(SystemTime);

/// The error `SystemTime::duration_since` reports when the clock reads before
/// the earlier time: opaque, only told apart from success.
#[verifier::external_type_specification]
#[verifier::external_body]
pub struct ExSystemTimeError(SystemTimeError);

/// Calls `std::time::SystemTime::now`. The wall-clock time depends on the
/// machine and the moment of the call, so nothing is claimed of it.
#[verifier::external_body]
fn system_time_now() -> SystemTime {
    SystemTime::now()
}

/// Calls `SystemTime::duration_since` with `UNIX_EPOCH` as the earlier time.
/// The result depends on the opaque clock reading `t`; std documents an error
/// exactly when `t` is before the epoch, which cannot be stated over an opaque
/// value, so no clause is given.
#[verifier::external_body]
fn duration_since_unix_epoch(t: &SystemTime) -> Result<Duration, SystemTimeError> {
    t.duration_since(UNIX_EPOCH)
}

/// Calls `Duration::as_millis`: the whole milliseconds in `d`. A `Duration` is
/// opaque here, so the relation to its seconds and nanoseconds is left unsaid.
#[verifier::external_body]
fn duration_as_millis(d: &Duration) -> u128 {
    d.as_millis()
}

/// Epoch milliseconds for a timestamp: the milliseconds elapsed since the UNIX
/// epoch, cut to their low 64 bits as an integer cast does, or `0` when the
/// clock reads before the epoch (no elapsed time to report).
pub fn epoch_ms(since_epoch: Option<u128>) -> (r: u64)
    ensures
        match since_epoch {
            Some(ms) => r == ms % 0x1_0000_0000_0000_0000,
            None => r == 0,
        },
{
    match since_epoch {
        Some(ms) => (ms % 0x1_0000_0000_0000_0000u128) as u64,
        None => 0,
    }
}

/// Current time in epoch milliseconds. Returns `0` if the system clock is before
/// the UNIX epoch instead of panicking.
///
/// The reading comes from the clock, so no clause fixes the value; what is
/// done with the reading is `epoch_ms`.
pub fn now_ms() -> u64 {
    let now = system_time_now();
    let since = match duration_since_unix_epoch(&now) {
        Ok(d) => Some(duration_as_millis(&d)),
        Err(_) => None,
    };
    epoch_ms(since)
}

} // verus!
